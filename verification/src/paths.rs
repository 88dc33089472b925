//! Windows path text.

use vstd::prelude::*;

use crate::text;

verus! {

/// The prefix that Windows puts before a canonical path.
pub const VERBATIM_PREFIX: &'static str = r"\\?\";

/// Tells whether a path carries the verbatim prefix.
pub open spec fn is_verbatim(path: Seq<char>) -> bool {
    VERBATIM_PREFIX@.is_prefix_of(path)
}

/// A path without its verbatim prefix; a path that carries none is unchanged.
pub open spec fn stripped(path: Seq<char>) -> Seq<char> {
    if is_verbatim(path) {
        path.skip(4)
    } else {
        path
    }
}

/// Stripping undoes exactly the prefix: a prefixed path comes back whole.
pub proof fn law_strip_undoes_prefix(path: Seq<char>)
    ensures
        stripped(VERBATIM_PREFIX@ + path) == path,
{
    reveal_strlit(r"\\?\");
    assert(VERBATIM_PREFIX@.is_prefix_of(VERBATIM_PREFIX@ + path));
    assert((VERBATIM_PREFIX@ + path).skip(4) =~= path);
}

/// Tells whether a path carries the verbatim prefix.
pub fn has_verbatim_prefix(path: &str) -> (b: bool)
    ensures
        b == is_verbatim(path@),
{
    text::starts_with(path, VERBATIM_PREFIX)
}

/// Strips the Windows `\\?\` prefix from a path.
///
/// Only those four characters go: of a path that begins with `\\?\UNC\`, the
/// part from `UNC\` on stays.
pub fn strip_unc_prefix(path: &str) -> (res: String)
    ensures
        res@ == stripped(path@),
{
    if has_verbatim_prefix(path) {
        proof {
            reveal_strlit(r"\\?\");
        }
        let len: usize = path.unicode_len();
        path.substring_char(4, len).to_owned()
    } else {
        path.to_owned()
    }
}

/// A path that was stripped: the path itself where there was nothing to strip, or
/// else the text that was left.
#[derive(Debug)]
pub enum PlainPath<P> {
    Native(P),
    Text(String),
}

/// What a [`PlainPath`] says.
pub enum PlainForm<P> {
    Native(P),
    Text(Seq<char>),
}

impl<P> View for PlainPath<P> {
    type V = PlainForm<P>;

    open spec fn view(&self) -> PlainForm<P> {
        match *self {
            PlainPath::Native(path) => PlainForm::Native(path),
            PlainPath::Text(text) => PlainForm::Text(text@),
        }
    }
}

/// A path that reads as `text`, stripped.
pub open spec fn plain_form<P>(path: P, text: Seq<char>) -> PlainForm<P> {
    if is_verbatim(text) {
        PlainForm::Text(stripped(text))
    } else {
        PlainForm::Native(path)
    }
}

/// Of a path that reads as the verbatim prefix followed by some text, stripping leaves that
/// text, whatever it is: nothing more goes and nothing stays of the prefix.
pub proof fn law_verbatim_paths_lose_their_prefix<P>(path: P, rest: Seq<char>)
    ensures
        plain_form(path, seq!['\\', '\\', '?', '\\'] + rest) == PlainForm::<P>::Text(rest),
        stripped(seq!['\\', '\\', '?', '\\'] + rest) == rest,
        is_verbatim(seq!['\\', '\\', '?', '\\'] + rest),
{
    reveal_strlit(r"\\?\");
    let prefix = seq!['\\', '\\', '?', '\\'];
    assert(VERBATIM_PREFIX@ =~= prefix);
    assert((prefix + rest).subrange(0, 4) =~= prefix);
    assert((prefix + rest).skip(4) =~= rest);
}

/// A path that reads without the verbatim prefix is handed back as it is, and so is its
/// text.
pub proof fn law_other_paths_stay<P>(path: P, text: Seq<char>)
    requires
        text.len() < 4 || text[0] != '\\' || text[1] != '\\' || text[2] != '?' || text[3] != '\\',
    ensures
        plain_form(path, text) == PlainForm::<P>::Native(path),
        stripped(text) == text,
        !is_verbatim(text),
{
    reveal_strlit(r"\\?\");
    if is_verbatim(text) {
        let head = text.subrange(0, 4);
        assert(VERBATIM_PREFIX@ =~= head);
        assert(head[0] == text[0] && head[1] == text[1] && head[2] == text[2] && head[3] == text[3]);
    }
}

/// A stripped path says the path or the text that it holds.
pub proof fn law_plain_paths_say_what_they_hold<P>(path: P, text: String)
    ensures
        PlainPath::Native(path)@ == PlainForm::Native(path),
        PlainPath::<P>::Text(text)@ == PlainForm::<P>::Text(text@),
{
}

/// Strips a path that reads as `text`. A path without the prefix is handed back as it
/// is, so nothing is lost where `text` cannot express all of it.
pub fn plain_path<P>(path: P, text: &str) -> (plain: PlainPath<P>)
    ensures
        plain@ == plain_form(path, text@),
{
    if has_verbatim_prefix(text) {
        PlainPath::Text(strip_unc_prefix(text))
    } else {
        PlainPath::Native(path)
    }
}

} // verus!
