//! Small text helpers: padding, and line endings for a raw-mode terminal.

use vstd::prelude::*;

verus! {

/// `count` spaces.
pub open spec fn spaces(count: nat) -> Seq<char> {
    Seq::new(count, |i: int| ' ')
}

/// `text` left-aligned in a column of `width` characters: spaces are added on
/// the right until the column is full, and a longer text is left as it is.
pub open spec fn padded(text: Seq<char>, width: nat) -> Seq<char> {
    if text.len() >= width {
        text
    } else {
        text + spaces((width - text.len()) as nat)
    }
}

/// `text` with every match of the non-empty `from` replaced by `to`, matches
/// taken from left to right and never overlapping.
pub open spec fn replaced(text: Seq<char>, from: Seq<char>, to: Seq<char>) -> Seq<char>
    recommends
        from.len() > 0,
    decreases text.len(),
{
    if from.len() == 0 || text.len() < from.len() {
        text
    } else if text.subrange(0, from.len() as int) == from {
        to + replaced(text.skip(from.len() as int), from, to)
    } else {
        seq![text[0]] + replaced(text.skip(1), from, to)
    }
}

/// `text` with a carriage return put before every line feed.
pub open spec fn with_carriage_returns(text: Seq<char>) -> Seq<char>
    decreases text.len(),
{
    if text.len() == 0 {
        text
    } else if text[0] == '\n' {
        seq!['\r', '\n'] + with_carriage_returns(text.skip(1))
    } else {
        seq![text[0]] + with_carriage_returns(text.skip(1))
    }
}

/// `text` with every line break made a carriage return and a line feed: a
/// line feed that has no carriage return before it gets one, and one that
/// has is left as it is.
pub open spec fn normalized(text: Seq<char>) -> Seq<char>
    decreases text.len(),
{
    if text.len() == 0 {
        text
    } else if text.len() >= 2 && text[0] == '\r' && text[1] == '\n' {
        seq!['\r', '\n'] + normalized(text.skip(2))
    } else if text[0] == '\n' {
        seq!['\r', '\n'] + normalized(text.skip(1))
    } else {
        seq![text[0]] + normalized(text.skip(1))
    }
}

/// Replacing the one-character pattern `"\n"` by `"\r\n"` puts a carriage
/// return before every line feed.
pub proof fn lemma_replaced_line_feeds(text: Seq<char>)
    ensures
        replaced(text, seq!['\n'], seq!['\r', '\n']) == with_carriage_returns(text),
    decreases text.len(),
{
    let from = seq!['\n'];
    if text.len() > 0 {
        lemma_replaced_line_feeds(text.skip(1));
        assert((text.subrange(0, 1) == from) == (text[0] == '\n')) by {
            if text[0] == '\n' {
                assert(text.subrange(0, 1) =~= from);
            } else {
                assert(text.subrange(0, 1)[0] == text[0]);
            }
        }
    }
}

/// Taking the carriage return out of every `"\r\n"` and then putting one
/// before every line feed normalizes the line breaks.
pub proof fn lemma_normalized_in_two_passes(text: Seq<char>)
    ensures
        with_carriage_returns(replaced(text, seq!['\r', '\n'], seq!['\n'])) == normalized(text),
    decreases text.len(),
{
    let from = seq!['\r', '\n'];
    let to = seq!['\n'];
    if text.len() == 0 {
    } else if text.len() == 1 {
        lemma_normalized_in_two_passes(text.skip(1));
        assert(replaced(text, from, to) == text);
        assert(replaced(text.skip(1), from, to) == text.skip(1));
    } else {
        assert((text.subrange(0, 2) == from) == (text[0] == '\r' && text[1] == '\n')) by {
            if text[0] == '\r' && text[1] == '\n' {
                assert(text.subrange(0, 2) =~= from);
            } else {
                assert(text.subrange(0, 2)[0] == text[0]);
                assert(text.subrange(0, 2)[1] == text[1]);
            }
        }
        if text.subrange(0, 2) == from {
            let rest = replaced(text.skip(2), from, to);
            lemma_normalized_in_two_passes(text.skip(2));
            assert(replaced(text, from, to) == to + rest);
            assert((to + rest)[0] == '\n');
            assert((to + rest).skip(1) =~= rest);
        } else {
            let rest = replaced(text.skip(1), from, to);
            lemma_normalized_in_two_passes(text.skip(1));
            assert(replaced(text, from, to) == seq![text[0]] + rest);
            assert((seq![text[0]] + rest)[0] == text[0]);
            assert((seq![text[0]] + rest).skip(1) =~= rest);
        }
    }
}

/// `String::push` of std: the character is appended and nothing else changes.
#[verifier::external_body]
pub(crate) fn push_char(text: &mut String, c: char)
    ensures
        final(text)@ == old(text)@.push(c),
{
    text.push(c)
}

/// `str::replace` of std, for a non-empty pattern: every match of `from`,
/// found from left to right without overlap, is replaced by `to`.
#[verifier::external_body]
pub(crate) fn replace_all(text: &str, from: &str, to: &str) -> (out: String)
    requires
        from@.len() > 0,
    ensures
        out@ == replaced(text@, from@, to@),
{
    text.replace(from, to)
}

/// Left-aligns `text` in a column of `width` characters.
pub fn pad_right(text: &str, width: usize) -> (out: String)
    ensures
        out@ == padded(text@, width as nat),
{
    let len: usize = text.unicode_len();
    let mut out = String::from_str(text);
    let mut i: usize = len;
    while i < width
        invariant
            len == text@.len(),
            len <= i,
            i == len || i <= width,
            out@ == text@ + spaces((i - len) as nat),
        decreases width - i,
    {
        push_char(&mut out, ' ');
        i = i + 1;
        assert(out@ =~= text@ + spaces((i - len) as nat));
    }
    proof {
        if len >= width {
            assert(spaces(0) =~= Seq::<char>::empty());
            assert(out@ =~= text@);
        } else {
            assert(i == width);
        }
    }
    out
}

/// Prepares file content for a terminal in raw mode, where a line feed alone
/// does not return the carriage: every line break becomes exactly one
/// carriage return and line feed.
pub fn normalize_line_endings(content: &str) -> (out: String)
    ensures
        out@ == normalized(content@),
{
    proof {
        reveal_strlit("\n");
        reveal_strlit("\r\n");
        assert("\n"@ =~= seq!['\n']);
        assert("\r\n"@ =~= seq!['\r', '\n']);
    }
    let bare = replace_all(content, "\r\n", "\n");
    let out = replace_all(bare.as_str(), "\n", "\r\n");
    proof {
        lemma_replaced_line_feeds(bare@);
        lemma_normalized_in_two_passes(content@);
    }
    out
}

} // verus!
