//! Text building blocks: decimal numbers, prefixes and concatenation.

use vstd::prelude::*;

verus! {

/// Appends one character to the end of a string. Contract of [`String::push`].
pub assume_specification[ String::push ](s: &mut String, c: char)
    ensures
        final(s)@ == old(s)@.push(c),
;

/// The character that writes the digit `d`.
pub open spec fn digit(d: nat) -> char
    recommends
        d < 10,
{
    (48 + d) as char
}

/// The decimal notation of `n`, without leading zeros.
pub open spec fn decimal(n: nat) -> Seq<char>
    decreases n,
{
    if n < 10 {
        seq![digit(n)]
    } else {
        decimal(n / 10).push(digit(n % 10))
    }
}

/// The number that a sequence of decimal digits stands for.
pub open spec fn decimal_value(digits: Seq<char>) -> int
    decreases digits.len(),
{
    if digits.len() == 0 {
        0
    } else {
        10 * decimal_value(digits.drop_last()) + (digits.last() as int - 48)
    }
}

/// Reading the decimal notation of a number gives the number back, so two
/// different numbers never share a notation.
pub proof fn law_decimal_reads_back(n: nat)
    ensures
        decimal_value(decimal(n)) == n,
    decreases n,
{
    if n < 10 {
        assert(seq![digit(n)].drop_last() =~= Seq::<char>::empty());
        assert(decimal_value(Seq::<char>::empty()) == 0);
    } else {
        law_decimal_reads_back(n / 10);
        assert(decimal(n).drop_last() =~= decimal(n / 10));
    }
}

/// The notation of a number of one digit is that digit; that of a larger number is the
/// notation of its tenth, followed by its last digit.
pub proof fn law_decimal_grows_by_digits(n: nat, d: nat)
    requires
        d < 10,
    ensures
        decimal(d) == seq![(48 + d) as char],
        n > 0 ==> decimal(10 * n + d) == decimal(n).push((48 + d) as char),
        decimal_value(decimal(n).push((48 + d) as char)) == 10 * n + d,
        decimal_value(Seq::<char>::empty()) == 0,
{
    law_decimal_reads_back(n);
    assert(decimal(n).push((48 + d) as char).drop_last() =~= decimal(n));
    if n > 0 {
        assert((10 * n + d) / 10 == n && (10 * n + d) % 10 == d);
    }
}

/// A notation consists of digits and has no leading zero.
pub proof fn law_decimal_is_plain(n: nat)
    ensures
        decimal(n).len() > 0,
        forall|i: int| 0 <= i < decimal(n).len() ==> 48 <= (#[trigger] decimal(n)[i]) as int <= 57,
        n > 0 ==> decimal(n)[0] != '0',
        n == 0 ==> decimal(n) == seq!['0'],
    decreases n,
{
    if n >= 10 {
        law_decimal_is_plain(n / 10);
        assert forall|i: int| 0 <= i < decimal(n).len() implies 48 <= (#[trigger] decimal(n)[i]) as int <= 57 by {
            assert(i < decimal(n).len() - 1 ==> decimal(n)[i] == decimal(n / 10)[i]);
        }
        assert(decimal(n)[0] == decimal(n / 10)[0]);
    }
}

fn digit_char(d: u64) -> (c: char)
    requires
        d < 10,
    ensures
        c == digit(d as nat),
{
    match d {
        0 => '0',
        1 => '1',
        2 => '2',
        3 => '3',
        4 => '4',
        5 => '5',
        6 => '6',
        7 => '7',
        8 => '8',
        _ => '9',
    }
}

/// Writes `n` in decimal notation.
pub fn to_decimal(n: u64) -> (s: String)
    ensures
        s@ == decimal(n as nat),
    decreases n,
{
    let mut s = if n < 10 {
        String::new()
    } else {
        to_decimal(n / 10)
    };
    s.push(digit_char(n % 10));
    proof {
        assert(Seq::<char>::empty().push(digit(n as nat)) =~= seq![digit(n as nat)]);
    }
    s
}

/// Joins two pieces of text.
pub fn joined(first: &str, second: &str) -> (s: String)
    ensures
        s@ == first@ + second@,
{
    let mut s = first.to_owned();
    s.append(second);
    s
}

/// Tells whether `text` begins with `prefix`.
pub fn starts_with(text: &str, prefix: &str) -> (b: bool)
    ensures
        b == prefix@.is_prefix_of(text@),
{
    let count: usize = prefix.unicode_len();
    if text.unicode_len() < count {
        return false;
    }
    let head = text.substring_char(0, count).to_owned();
    proof {
        assert(prefix@.is_prefix_of(text@) <==> text@.subrange(0, count as int) =~= prefix@);
    }
    head == prefix.to_owned()
}

/// The texts of some strings.
pub open spec fn texts(strings: Seq<String>) -> Seq<Seq<char>> {
    strings.map_values(|string: String| string@)
}

/// Where the first line of a text ends: at its first line feed, or at its end.
pub open spec fn line_end(text: Seq<char>) -> nat
    decreases text.len(),
{
    if text.len() == 0 || text[0] == '\n' {
        0
    } else {
        1 + line_end(text.drop_first())
    }
}

/// A line without the carriage return before its line feed, if there is one.
pub open spec fn trimmed(line: Seq<char>) -> Seq<char> {
    if line.len() > 0 && line.last() == '\r' {
        line.drop_last()
    } else {
        line
    }
}

/// The lines of a text. A line ends with a line feed, which a carriage return may precede;
/// neither belongs to it. The last line need not end with one.
pub open spec fn lines_of(text: Seq<char>) -> Seq<Seq<char>>
    decreases text.len(),
{
    let end = line_end(text);
    if text.len() == 0 {
        Seq::empty()
    } else if end < text.len() {
        seq![trimmed(text.take(end as int))] + lines_of(text.skip(end as int + 1))
    } else {
        seq![text]
    }
}

proof fn lemma_line_end(line: Seq<char>, rest: Seq<char>)
    requires
        !line.contains('\n'),
        rest.len() == 0 || rest[0] == '\n',
    ensures
        line_end(line + rest) == line.len(),
    decreases line.len(),
{
    if line.len() == 0 {
        assert(line + rest =~= rest);
    } else {
        assert(line.contains(line[0]));
        assert forall|c: char| line.drop_first().contains(c) implies line.contains(c) by {
            assert(line[line.drop_first().index_of(c) + 1] == c);
        }
        assert((line + rest).drop_first() =~= line.drop_first() + rest);
        lemma_line_end(line.drop_first(), rest);
    }
}

/// A line that ends with a line feed comes first among the lines, as it is, unless a
/// carriage return stands before the line feed: that goes too, and it alone. What follows
/// has the lines that it has by itself. A text without a line feed is one line, carriage
/// returns and all, and an empty text has no line.
pub proof fn law_lines_end_with_line_feeds(line: Seq<char>, rest: Seq<char>)
    requires
        !line.contains('\n'),
    ensures
        line.len() == 0 || line.last() != '\r' ==> lines_of(line + seq!['\n'] + rest) == seq![line] + lines_of(
            rest,
        ),
        lines_of(line + seq!['\r', '\n'] + rest) == seq![line] + lines_of(rest),
        line.len() > 0 ==> lines_of(line) == seq![line],
        lines_of(Seq::empty()) == Seq::<Seq<char>>::empty(),
{
    let feed = seq!['\n'];
    let text = line + feed + rest;
    assert(text =~= line + (feed + rest));
    lemma_line_end(line, feed + rest);
    assert(text.take(line.len() as int) =~= line);
    assert(text.skip(line.len() as int + 1) =~= rest);
    let longer = line.push('\r');
    let text = line + seq!['\r', '\n'] + rest;
    assert forall|i: int| 0 <= i < longer.len() implies longer[i] != '\n' by {
        assert(i < line.len() ==> line.contains(line[i]));
    }
    assert(text =~= longer + (feed + rest));
    lemma_line_end(longer, feed + rest);
    assert(text.take(longer.len() as int) =~= longer);
    assert(text.skip(longer.len() as int + 1) =~= rest);
    assert(longer.drop_last() =~= line);
    lemma_line_end(line, Seq::empty());
    assert(line + Seq::empty() =~= line);
}

/// The texts of some strings are those of each, in order.
pub proof fn law_texts_are_those_of_each(strings: Seq<String>, i: int)
    requires
        0 <= i < strings.len(),
    ensures
        texts(strings).len() == strings.len(),
        texts(strings)[i] == strings[i]@,
{
}

/// Splits a text into its lines.
pub fn split_lines(text: &str) -> (lines: Vec<String>)
    ensures
        texts(lines@) == lines_of(text@),
{
    let mut lines: Vec<String> = Vec::new();
    let mut line = String::new();
    // A carriage return that belongs to the line unless a line feed follows.
    let mut waiting = false;
    let ghost mut read: Seq<char> = Seq::empty();
    proof {
        assert(read + text@.skip(0) =~= text@);
        assert(texts(lines@) + lines_of(text@) =~= lines_of(text@));
    }
    for c in it: text.chars()
        invariant
            it.seq() == text@,
            !read.contains('\n'),
            read == if waiting {
                line@.push('\r')
            } else {
                line@
            },
            !waiting ==> read == trimmed(read),
            texts(lines@) + lines_of(read + text@.skip(it.index())) == lines_of(text@),
    {
        let ghost before = read;
        let ghost done = lines@;
        let ghost rest = text@.skip(it.index());
        proof {
            assert(rest[0] == c);
            assert(rest.drop_first() =~= text@.skip(it.index() + 1));
        }
        if c == '\n' {
            proof {
                lemma_line_end(before, rest);
                assert((before + rest).take(before.len() as int) =~= before);
                assert((before + rest).skip(before.len() as int + 1) =~= rest.drop_first());
                assert(trimmed(before) =~= line@);
            }
            lines.push(line);
            line = String::new();
            waiting = false;
            proof {
                read = Seq::empty();
                assert(texts(lines@) =~= texts(done).push(trimmed(before)));
                assert(read + rest.drop_first() =~= rest.drop_first());
                assert(texts(lines@) + lines_of(rest.drop_first()) =~= texts(done) + lines_of(before + rest));
            }
        } else {
            if waiting {
                line.push('\r');
            }
            if c == '\r' {
                waiting = true;
            } else {
                line.push(c);
                waiting = false;
            }
            proof {
                read = before.push(c);
                assert(read + rest.drop_first() =~= before + rest);
                assert forall|i: int| 0 <= i < read.len() implies read[i] != '\n' by {
                    assert(i < before.len() ==> before.contains(before[i]));
                }
            }
        }
    }
    if waiting {
        line.push('\r');
    }
    proof {
        assert(line@ =~= read);
        assert(read + text@.skip(text@.len() as int) =~= read);
        lemma_line_end(read, Seq::empty());
        assert(read + Seq::empty() =~= read);
    }
    if line.as_str().unicode_len() > 0 {
        let ghost done = lines@;
        lines.push(line);
        proof {
            assert(texts(lines@) =~= texts(done) + seq![read]);
        }
    } else {
        proof {
            assert(texts(lines@) + Seq::empty() =~= texts(lines@));
        }
    }
    lines
}

} // verus!
