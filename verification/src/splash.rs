//! Scripts that write messages on the splash page.
//!
//! A message goes into a single-quoted JavaScript string literal, so the
//! characters that would end or break the literal are escaped first.

use vstd::prelude::*;

verus! {

/// How a message writes one character: a backslash and a quote get a backslash before
/// them, a line feed and a carriage return become a space.
pub open spec fn escaped_char(c: char) -> Seq<char> {
    if c == '\\' {
        seq!['\\', '\\']
    } else if c == '\'' {
        seq!['\\', '\'']
    } else if c == '\n' || c == '\r' {
        seq![' ']
    } else {
        seq![c]
    }
}

/// A message with every character written by [`escaped_char`].
pub open spec fn escaped(message: Seq<char>) -> Seq<char>
    decreases message.len(),
{
    if message.len() == 0 {
        Seq::empty()
    } else {
        escaped_char(message.first()) + escaped(message.drop_first())
    }
}

/// The text that JavaScript reads from the inside of a single-quoted literal,
/// or `None` where the literal ends early, breaks off, or uses an escape other
/// than that of the backslash and the quote.
pub open spec fn literal_text(body: Seq<char>) -> Option<Seq<char>>
    decreases body.len(),
{
    if body.len() == 0 {
        Some(Seq::empty())
    } else if body[0] == '\\' {
        if body.len() >= 2 && (body[1] == '\\' || body[1] == '\'') {
            match literal_text(body.skip(2)) {
                Some(rest) => Some(seq![body[1]] + rest),
                None => None,
            }
        } else {
            None
        }
    } else if body[0] == '\'' || body[0] == '\n' || body[0] == '\r' {
        None
    } else {
        match literal_text(body.skip(1)) {
            Some(rest) => Some(seq![body[0]] + rest),
            None => None,
        }
    }
}

/// A message with a space in place of each line feed and carriage return.
pub open spec fn one_line(message: Seq<char>) -> Seq<char> {
    Seq::new(
        message.len(),
        |i: int| if message[i] == '\n' || message[i] == '\r' { ' ' } else { message[i] },
    )
}

/// The script that shows an error on the splash page.
pub open spec fn error_script_text(message: Seq<char>) -> Seq<char> {
    "var s = document.getElementById('status'); s.textContent = '"@ + escaped(message)
        + "'; s.classList.add('error'); var sp = document.querySelector('.spinner'); if (sp) sp.style.display = 'none';"@
}

/// The script that shows a status on the splash page, unless an error stands there.
pub open spec fn status_script_text(message: Seq<char>) -> Seq<char> {
    "var s = document.getElementById('status'); if (!s.classList.contains('error')) { s.textContent = '"@
        + escaped(message) + "'; }"@
}

/// Every character of a message is written by itself: a backslash and a quote with a
/// backslash before them, a line feed and a carriage return as a space, and any other
/// character as it is. What stands around a character does not matter.
pub proof fn law_characters_are_escaped_one_by_one(before: Seq<char>, c: char, after: Seq<char>)
    ensures
        escaped(Seq::empty()) == Seq::<char>::empty(),
        c == '\\' ==> escaped(before + seq![c] + after) == escaped(before) + seq!['\\', '\\'] + escaped(after),
        c == '\'' ==> escaped(before + seq![c] + after) == escaped(before) + seq!['\\', '\''] + escaped(after),
        c == '\n' || c == '\r' ==> escaped(before + seq![c] + after) == escaped(before) + seq![' '] + escaped(after),
        c != '\\' && c != '\'' && c != '\n' && c != '\r' ==> escaped(before + seq![c] + after) == escaped(before)
            + seq![c] + escaped(after),
    decreases before.len(),
{
    let all = before + seq![c] + after;
    if before.len() == 0 {
        assert(all.drop_first() =~= after);
        assert(all.first() == c);
        assert(escaped(before) + escaped_char(c) =~= escaped_char(c));
    } else {
        let rest = before.drop_first();
        law_characters_are_escaped_one_by_one(rest, c, after);
        assert(all.drop_first() =~= rest + seq![c] + after);
        assert(all.first() == before.first());
        let head = escaped_char(before.first());
        let written = escaped_char(c);
        assert(head + (escaped(rest) + written + escaped(after)) =~= (head + escaped(rest)) + written + escaped(
            after,
        ));
    }
}

/// The scripts are the same for every message but for the literal in which the escaped
/// message stands.
pub proof fn law_scripts_frame_the_message(message: Seq<char>)
    ensures
        error_script_text(message) == "var s = document.getElementById('status'); s.textContent = '"@ + escaped(
            message,
        )
            + "'; s.classList.add('error'); var sp = document.querySelector('.spinner'); if (sp) sp.style.display = 'none';"@,
        status_script_text(message)
            == "var s = document.getElementById('status'); if (!s.classList.contains('error')) { s.textContent = '"@
            + escaped(message) + "'; }"@,
{
}

/// A message on one line is as long as the message and has a space exactly where that has a
/// line break or a space.
pub proof fn law_one_line_keeps_the_rest(message: Seq<char>, i: int)
    requires
        0 <= i < message.len(),
    ensures
        one_line(message).len() == message.len(),
        message[i] == '\n' || message[i] == '\r' ==> one_line(message)[i] == ' ',
        message[i] != '\n' && message[i] != '\r' ==> one_line(message)[i] == message[i],
{
}

/// An escaped message is a whole literal, and the page shows the message on one line.
pub proof fn law_message_is_shown_whole(message: Seq<char>)
    ensures
        literal_text(escaped(message)) == Some(one_line(message)),
    decreases message.len(),
{
    if message.len() == 0 {
        assert(one_line(message) =~= Seq::empty());
    } else {
        let c = message.first();
        let rest = message.drop_first();
        let body = escaped(message);
        law_message_is_shown_whole(rest);
        assert(body.skip(escaped_char(c).len() as int) =~= escaped(rest));
        assert(body[0] == escaped_char(c)[0]);
        let shown = if c == '\n' || c == '\r' { ' ' } else { c };
        assert(seq![shown] + one_line(rest) =~= one_line(message));
    }
}

/// A message of one line is shown as it is.
pub proof fn law_one_line_is_shown_unchanged(message: Seq<char>)
    requires
        !message.contains('\n'),
        !message.contains('\r'),
    ensures
        literal_text(escaped(message)) == Some(message),
{
    law_message_is_shown_whole(message);
    assert forall|i: int| 0 <= i < message.len() implies message[i] != '\n' && message[i] != '\r' by {
        assert(message.contains(message[i]));
    }
    assert(one_line(message) =~= message);
}

fn escape(message: &str) -> (out: String)
    ensures
        out@ == escaped(message@),
{
    let mut out = String::new();
    proof {
        assert(message@.skip(0) =~= message@);
    }
    for c in it: message.chars()
        invariant
            it.seq() == message@,
            out@ + escaped(message@.skip(it.index())) == escaped(message@),
    {
        let ghost before = out@;
        let ghost rest = message@.skip(it.index());
        proof {
            assert(rest.first() == c);
            assert(rest.drop_first() =~= message@.skip(it.index() + 1));
        }
        if c == '\\' {
            out.append("\\\\");
            proof {
                reveal_strlit("\\\\");
                assert("\\\\"@ =~= escaped_char(c));
            }
        } else if c == '\'' {
            out.append("\\'");
            proof {
                reveal_strlit("\\'");
                assert("\\'"@ =~= escaped_char(c));
            }
        } else if c == '\n' || c == '\r' {
            out.push(' ');
        } else {
            out.push(c);
        }
        proof {
            assert(out@ =~= before + escaped_char(c));
            assert(out@ + escaped(rest.drop_first()) =~= before + escaped(rest));
        }
    }
    proof {
        assert(out@ + escaped(Seq::empty()) =~= out@);
        assert(message@.skip(message@.len() as int) =~= Seq::empty());
    }
    out
}

/// Builds the script that shows an error on the splash page and hides the spinner.
pub fn error_script(message: &str) -> (script: String)
    ensures
        script@ == error_script_text(message@),
{
    let mut script = "var s = document.getElementById('status'); s.textContent = '".to_owned();
    script.append(escape(message).as_str());
    script.append(
        "'; s.classList.add('error'); var sp = document.querySelector('.spinner'); if (sp) sp.style.display = 'none';",
    );
    script
}

/// Builds the script that shows a status on the splash page, unless an error stands there.
pub fn status_script(message: &str) -> (script: String)
    ensures
        script@ == status_script_text(message@),
{
    let mut script =
        "var s = document.getElementById('status'); if (!s.classList.contains('error')) { s.textContent = '".to_owned();
    script.append(escape(message).as_str());
    script.append("'; }");
    script
}

} // verus!
