//! From the bytes a renderer wrote to the line that is shown.

use vstd::prelude::*;
use vstd::std_specs::iter::IteratorSpec;
use vstd::string::StrSliceExecFns;

verus! {

/// Whether `c` has the Unicode property `White_Space`: the result of
/// `char::is_whitespace`.
pub uninterp spec fn is_unicode_whitespace(c: char) -> bool;

/// The text that `String::from_utf8_lossy` decodes `bytes` to: their UTF-8
/// reading, with each invalid sequence replaced by U+FFFD.
pub uninterp spec fn utf8_lossy(bytes: Seq<u8>) -> Seq<char>;

/// `char::is_whitespace`.
#[verifier::external_body]
fn is_whitespace(c: char) -> (white: bool)
    ensures
        white == is_unicode_whitespace(c),
{
    c.is_whitespace()
}

/// `String::from_utf8_lossy`, with the result made an owned `String`. The
/// decoding never fails and depends on the bytes alone.
#[verifier::external_body]
fn decode_lossy(bytes: &[u8]) -> (text: String)
    ensures
        text@ == utf8_lossy(bytes@),
{
    String::from_utf8_lossy(bytes).into_owned()
}

/// Number of characters before the first line feed of `text`; its whole length
/// if it has none.
pub open spec fn line_end(text: Seq<char>) -> int
    decreases text.len(),
{
    if text.len() == 0 || text[0] == '\n' {
        0
    } else {
        1 + line_end(text.drop_first())
    }
}

/// The first line of `text`, without the line feed that ends it.
pub open spec fn first_line(text: Seq<char>) -> Seq<char> {
    text.take(line_end(text))
}

/// `text` without its leading whitespace.
pub open spec fn trim_start(text: Seq<char>) -> Seq<char>
    decreases text.len(),
{
    if text.len() > 0 && is_unicode_whitespace(text.first()) {
        trim_start(text.drop_first())
    } else {
        text
    }
}

/// `text` without its trailing whitespace.
pub open spec fn trim_end(text: Seq<char>) -> Seq<char>
    decreases text.len(),
{
    if text.len() > 0 && is_unicode_whitespace(text.last()) {
        trim_end(text.drop_last())
    } else {
        text
    }
}

/// `text` without the whitespace that surrounds it.
pub open spec fn trim(text: Seq<char>) -> Seq<char> {
    trim_end(trim_start(text))
}

/// The line to show for the output `text`: its first line, trimmed; none if
/// nothing is left of it.
pub open spec fn shown_line(text: Seq<char>) -> Option<Seq<char>> {
    let line = trim(first_line(text));
    if line.len() == 0 {
        None
    } else {
        Some(line)
    }
}

/// The first line ends at the first position that holds a line feed or lies
/// past the text.
pub proof fn lemma_line_end(text: Seq<char>, end: int)
    requires
        0 <= end <= text.len(),
        forall|i: int| 0 <= i < end ==> text[i] != '\n',
        end < text.len() ==> text[end] == '\n',
    ensures
        line_end(text) == end,
    decreases end,
{
    if end > 0 {
        let rest = text.drop_first();
        assert(text[0] != '\n');
        assert forall|i: int| 0 <= i < end - 1 implies rest[i] != '\n' by {
            assert(rest[i] == text[i + 1]);
        }
        lemma_line_end(rest, end - 1);
    }
}

/// Trimming the start removes exactly the whitespace before the first
/// character that is none.
pub proof fn lemma_trim_start(text: Seq<char>, from: int)
    requires
        0 <= from <= text.len(),
        forall|i: int| 0 <= i < from ==> is_unicode_whitespace(text[i]),
        from < text.len() ==> !is_unicode_whitespace(text[from]),
    ensures
        trim_start(text) == text.skip(from),
    decreases from,
{
    if from == 0 {
        assert(text.skip(0) =~= text);
    } else {
        let rest = text.drop_first();
        assert(is_unicode_whitespace(text[0]));
        assert forall|i: int| 0 <= i < from - 1 implies is_unicode_whitespace(rest[i]) by {
            assert(rest[i] == text[i + 1]);
        }
        lemma_trim_start(rest, from - 1);
        assert(rest.skip(from - 1) =~= text.skip(from));
    }
}

/// Trimming the end removes exactly the whitespace after the last character
/// that is none.
pub proof fn lemma_trim_end(text: Seq<char>, to: int)
    requires
        0 <= to <= text.len(),
        forall|i: int| to <= i < text.len() ==> is_unicode_whitespace(text[i]),
        to > 0 ==> !is_unicode_whitespace(text[to - 1]),
    ensures
        trim_end(text) == text.take(to),
    decreases text.len() - to,
{
    if to == text.len() {
        assert(text.take(to) =~= text);
    } else {
        let rest = text.drop_last();
        assert(is_unicode_whitespace(text[text.len() - 1]));
        lemma_trim_end(rest, to);
        assert(rest.take(to) =~= text.take(to));
    }
}

/// The first line ends where `line_end` says: no line feed lies before that
/// position, and one lies at it unless the text ends there.
pub proof fn lemma_line_end_shape(text: Seq<char>)
    ensures
        0 <= line_end(text) <= text.len(),
        forall|i: int| 0 <= i < line_end(text) ==> text[i] != '\n',
        line_end(text) < text.len() ==> text[line_end(text)] == '\n',
    decreases text.len(),
{
    if text.len() > 0 && text[0] != '\n' {
        let rest = text.drop_first();
        lemma_line_end_shape(rest);
        assert forall|i: int| 0 <= i < line_end(text) implies text[i] != '\n' by {
            if i > 0 {
                assert(text[i] == rest[i - 1]);
            }
        }
        if line_end(text) < text.len() {
            assert(text[line_end(text)] == rest[line_end(rest)]);
        }
    }
}

/// What `trim_start` leaves is the text from its first character that is no
/// whitespace.
pub proof fn lemma_trim_start_shape(text: Seq<char>) -> (from: int)
    ensures
        0 <= from <= text.len(),
        trim_start(text) == text.skip(from),
        forall|i: int| 0 <= i < from ==> is_unicode_whitespace(text[i]),
        from < text.len() ==> !is_unicode_whitespace(text[from]),
    decreases text.len(),
{
    if text.len() > 0 && is_unicode_whitespace(text.first()) {
        let rest = text.drop_first();
        let inner = lemma_trim_start_shape(rest);
        assert(rest.skip(inner) =~= text.skip(inner + 1));
        assert forall|i: int| 0 <= i < inner + 1 implies is_unicode_whitespace(text[i]) by {
            if i > 0 {
                assert(text[i] == rest[i - 1]);
            }
        }
        if inner + 1 < text.len() {
            assert(text[inner + 1] == rest[inner]);
        }
        inner + 1
    } else {
        assert(text.skip(0) =~= text);
        0
    }
}

/// What `trim_end` leaves is the text up to its last character that is no
/// whitespace.
pub proof fn lemma_trim_end_shape(text: Seq<char>) -> (to: int)
    ensures
        0 <= to <= text.len(),
        trim_end(text) == text.take(to),
        forall|i: int| to <= i < text.len() ==> is_unicode_whitespace(text[i]),
        to > 0 ==> !is_unicode_whitespace(text[to - 1]),
    decreases text.len(),
{
    if text.len() > 0 && is_unicode_whitespace(text.last()) {
        let rest = text.drop_last();
        let inner = lemma_trim_end_shape(rest);
        assert(rest.take(inner) =~= text.take(inner));
        assert forall|i: int| inner <= i < text.len() implies is_unicode_whitespace(text[i]) by {
            if i < text.len() - 1 {
                assert(text[i] == rest[i]);
            }
        }
        if inner > 0 {
            assert(text[inner - 1] == rest[inner - 1]);
        }
        inner
    } else {
        assert(text.take(text.len() as int) =~= text);
        text.len() as int
    }
}

/// A line that is shown is never empty, neither begins nor ends with
/// whitespace, and holds no line feed.
pub proof fn law_shown_line_is_clean(text: Seq<char>)
    ensures
        shown_line(text) matches Some(line) ==> {
            &&& line.len() > 0
            &&& !is_unicode_whitespace(line.first())
            &&& !is_unicode_whitespace(line.last())
            &&& forall|i: int| 0 <= i < line.len() ==> line[i] != '\n'
        },
{
    lemma_line_end_shape(text);
    let head = first_line(text);
    let from = lemma_trim_start_shape(head);
    let rest = head.skip(from);
    let to = lemma_trim_end_shape(rest);
    let line = rest.take(to);
    if line.len() > 0 {
        assert(line.first() == head[from]);
        assert(line.last() == rest[to - 1]);
        assert forall|i: int| 0 <= i < line.len() implies line[i] != '\n' by {
            assert(line[i] == text[from + i]);
        }
    }
}

/// A renderer that prints `line` first has it shown as it is, whatever it
/// prints after it, if the line is not empty, has no whitespace around it and
/// holds no line feed.
pub proof fn law_printed_line_is_shown(line: Seq<char>, rest: Seq<char>)
    requires
        line.len() > 0,
        !is_unicode_whitespace(line.first()),
        !is_unicode_whitespace(line.last()),
        forall|i: int| 0 <= i < line.len() ==> line[i] != '\n',
    ensures
        shown_line(line) == Some(line),
        shown_line(line + seq!['\n'] + rest) == Some(line),
{
    let text = line + seq!['\n'] + rest;
    lemma_line_end(line, line.len() as int);
    lemma_line_end(text, line.len() as int);
    assert(line.take(line.len() as int) =~= line);
    assert(text.take(line.len() as int) =~= line);
    lemma_trim_start(line, 0);
    lemma_trim_end(line, line.len() as int);
    assert(line.skip(0) =~= line);
}

/// An output that is empty, or that begins with a line feed, shows no line.
pub proof fn law_blank_line_shows_nothing(text: Seq<char>)
    requires
        text.len() == 0 || text[0] == '\n',
    ensures
        shown_line(text) is None,
{
    assert(first_line(text) =~= Seq::<char>::empty());
}

/// A first line of nothing but whitespace shows no line.
pub proof fn law_whitespace_line_shows_nothing(text: Seq<char>)
    requires
        forall|i: int| 0 <= i < line_end(text) ==> is_unicode_whitespace(text[i]),
    ensures
        shown_line(text) is None,
{
    lemma_line_end_shape(text);
    let head = first_line(text);
    lemma_trim_start(head, head.len() as int);
    assert(head.skip(head.len() as int) =~= Seq::<char>::empty());
}

/// Trims `text`, or only its first line.
fn trim_scanned(text: &str, first_line_only: bool) -> (trimmed: String)
    ensures
        trimmed@ == trim(
            if first_line_only {
                first_line(text@)
            } else {
                text@
            },
        ),
{
    let ghost all = text@;
    let len = text.unicode_len();
    let mut chars = text.chars();
    let mut at: usize = 0;
    let mut found = false;
    let mut start: usize = 0;
    let mut end: usize = 0;
    let mut done = false;
    while !done
        invariant
            all == text@,
            len == all.len(),
            at <= len,
            !done ==> chars.remaining() == all.skip(at as int),
            forall|i: int| 0 <= i < at ==> first_line_only ==> all[i] != '\n',
            !found ==> start == 0 && end == 0 && forall|i: int|
                0 <= i < at ==> is_unicode_whitespace(all[i]),
            found ==> {
                &&& start < end <= at
                &&& !is_unicode_whitespace(all[start as int])
                &&& !is_unicode_whitespace(all[end - 1])
                &&& forall|i: int| 0 <= i < start ==> is_unicode_whitespace(all[i])
                &&& forall|i: int| end <= i < at ==> is_unicode_whitespace(all[i])
            },
            done ==> if first_line_only {
                at < len ==> all[at as int] == '\n'
            } else {
                at == len
            },
        decreases len - at + if done { 0int } else { 1int },
    {
        match chars.next() {
            None => {
                done = true;
            },
            Some(c) => {
                assert(c == all[at as int]);
                assert(all.skip(at as int).drop_first() =~= all.skip(at + 1));
                if first_line_only && c == '\n' {
                    done = true;
                } else {
                    if !is_whitespace(c) {
                        if !found {
                            start = at;
                            found = true;
                        }
                        end = at + 1;
                    }
                    at = at + 1;
                }
            },
        }
    }
    let ghost line = if first_line_only {
        first_line(all)
    } else {
        all
    };
    proof {
        if first_line_only {
            lemma_line_end(all, at as int);
        } else {
            assert(all.take(at as int) =~= all);
        }
        assert(line == all.take(at as int));
        if found {
            lemma_trim_start(line, start as int);
            lemma_trim_end(line.skip(start as int), end - start);
            assert(line.skip(start as int).take(end - start) =~= all.subrange(
                start as int,
                end as int,
            ));
        } else {
            lemma_trim_start(line, at as int);
            assert(line.skip(at as int) =~= Seq::<char>::empty());
        }
    }
    text.substring_char(start, end).to_owned()
}

/// `text` without the whitespace that surrounds it.
pub fn trimmed(text: &str) -> (result: String)
    ensures
        result@ == trim(text@),
{
    trim_scanned(text, false)
}

/// The line to show for the decoded output `text`: its first line, trimmed of
/// the whitespace around it. A line of which nothing is left is no line.
pub fn line_of_text(text: &str) -> (line: Option<String>)
    ensures
        line.deep_view() == shown_line(text@),
{
    let trimmed = trim_scanned(text, true);
    if trimmed.as_str().is_empty() {
        None
    } else {
        Some(trimmed)
    }
}

/// The line to show for the bytes a renderer wrote to its output. The bytes are
/// decoded leniently, so every output has a reading.
pub fn line_of_output(stdout: &[u8]) -> (line: Option<String>)
    ensures
        line.deep_view() == shown_line(utf8_lossy(stdout@)),
{
    let text = decode_lossy(stdout);
    line_of_text(text.as_str())
}

/// The text of what a renderer wrote to its error stream, decoded leniently
/// and trimmed.
pub fn diagnostic_of_output(stderr: &[u8]) -> (text: String)
    ensures
        text@ == trim(utf8_lossy(stderr@)),
{
    let decoded = decode_lossy(stderr);
    trimmed(decoded.as_str())
}

} // verus!
