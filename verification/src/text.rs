//! Text handling shared by the backends: decoding what a clipboard hands
//! over, testing a prefix, and the two line-ending conventions.

use vstd::prelude::*;
use vstd::std_specs::iter::IteratorSpec;
use vstd::string::StringExecFns;
use vstd::utf8::{
    decode_utf8, encode_utf8, encode_utf8_decode_utf8, encode_utf8_valid_utf8, valid_utf8,
};

verus! {

/// `String::push` appends the given character to the end of the string.
pub assume_specification[ String::push ](text: &mut String, c: char)
    ensures
        final(text)@ == old(text)@.push(c),
;

/// What `String::from_utf8_lossy` makes of bytes that are not well-formed
/// UTF-8: the text in which every ill-formed part has been replaced.
pub uninterp spec fn lossy_repair(bytes: Seq<u8>) -> Seq<char>;

/// The text that a lossy decoding of `bytes` gives: the text they encode
/// where they are well-formed UTF-8, a repaired text otherwise.
pub open spec fn utf8_lossy(bytes: Seq<u8>) -> Seq<char> {
    if valid_utf8(bytes) {
        decode_utf8(bytes)
    } else {
        lossy_repair(bytes)
    }
}

/// Calls `String::from_utf8_lossy`. Well-formed UTF-8 comes back as the text
/// it encodes, unchanged; for anything else the result is only given a name.
#[verifier::external_body]
pub(crate) fn decode_lossy(bytes: &[u8]) -> (text: String)
    ensures
        valid_utf8(bytes@) ==> text@ == decode_utf8(bytes@),
        !valid_utf8(bytes@) ==> text@ == lossy_repair(bytes@),
{
    String::from_utf8_lossy(bytes).into_owned()
}

/// Text survives its encoding: the UTF-8 bytes of `text`, decoded even in
/// the lossy way, are `text`.
pub proof fn lemma_utf8_round_trip(text: Seq<char>)
    ensures
        utf8_lossy(encode_utf8(text)) == text,
{
    encode_utf8_valid_utf8(text);
    encode_utf8_decode_utf8(text);
}

/// No bytes decode to no text.
pub proof fn lemma_utf8_lossy_empty()
    ensures
        utf8_lossy(Seq::empty()) == Seq::<char>::empty(),
{
    lemma_utf8_round_trip(Seq::empty());
    assert(encode_utf8(Seq::empty()) =~= Seq::<u8>::empty());
}

/// Whether `text` begins with `prefix`.
pub fn starts_with(text: &str, prefix: &str) -> (found: bool)
    ensures
        found == prefix@.is_prefix_of(text@),
{
    let mut rest = text.chars();
    for c in it: prefix.chars()
        invariant
            it.seq() == prefix@,
            rest.obeys_prophetic_iter_laws(),
            it.index() <= text@.len(),
            rest.remaining() == text@.skip(it.index() as int),
            text@.take(it.index() as int) == prefix@.take(it.index() as int),
    {
        match rest.next() {
            None => {
                return false;
            },
            Some(t) => {
                if t != c {
                    return false;
                }
            },
        }
    }
    true
}

/// Whether the two texts are the same.
pub fn same_text(left: &str, right: &str) -> (same: bool)
    ensures
        same == (left@ == right@),
{
    let same = starts_with(left, right) && starts_with(right, left);
    proof {
        if same {
            assert(left@ =~= right@);
        }
    }
    same
}

/// `head` followed by `tail`.
pub fn joined(head: &str, tail: &str) -> (text: String)
    ensures
        text@ == head@ + tail@,
{
    let mut text = head.to_owned();
    text.append(tail);
    text
}

/// What one character becomes when line feeds are written as carriage
/// return and line feed.
pub open spec fn crlf_of(c: char) -> Seq<char> {
    if c == '\n' {
        seq!['\r', '\n']
    } else {
        seq![c]
    }
}

/// `text` with every line feed replaced by carriage return and line feed.
pub open spec fn with_crlf(text: Seq<char>) -> Seq<char>
    decreases text.len(),
{
    if text.len() == 0 {
        Seq::empty()
    } else {
        crlf_of(text[0]) + with_crlf(text.skip(1))
    }
}

/// `text` with every carriage return and line feed pair, taken from the left
/// and never overlapping, replaced by a line feed.
pub open spec fn without_crlf(text: Seq<char>) -> Seq<char>
    decreases text.len(),
{
    if text.len() == 0 {
        Seq::empty()
    } else if text.len() >= 2 && text[0] == '\r' && text[1] == '\n' {
        seq!['\n'] + without_crlf(text.skip(2))
    } else {
        seq![text[0]] + without_crlf(text.skip(1))
    }
}

proof fn lemma_with_crlf_push(text: Seq<char>, c: char)
    ensures
        with_crlf(text.push(c)) == with_crlf(text) + crlf_of(c),
    decreases text.len(),
{
    if text.len() == 0 {
        assert(text.push(c).skip(1) =~= Seq::<char>::empty());
        assert(with_crlf(Seq::<char>::empty()) =~= Seq::<char>::empty());
        assert(with_crlf(text.push(c)) =~= crlf_of(c));
    } else {
        lemma_with_crlf_push(text.skip(1), c);
        assert(text.push(c).skip(1) =~= text.skip(1).push(c));
        assert(with_crlf(text.push(c)) =~= with_crlf(text) + crlf_of(c));
    }
}

proof fn lemma_without_crlf_push(text: Seq<char>, c: char)
    ensures
        text.len() > 0 && text.last() == '\r' ==> without_crlf(text).len() > 0 && without_crlf(
            text,
        ).last() == '\r',
        text.len() > 0 && text.last() == '\r' && c == '\n' ==> without_crlf(text.push(c))
            == without_crlf(text).drop_last().push('\n'),
        !(text.len() > 0 && text.last() == '\r' && c == '\n') ==> without_crlf(text.push(c))
            == without_crlf(text).push(c),
    decreases text.len(),
{
    let more = text.push(c);
    if text.len() == 0 {
        assert(more.skip(1) =~= Seq::<char>::empty());
        assert(without_crlf(Seq::<char>::empty()) =~= Seq::<char>::empty());
        assert(without_crlf(more) =~= seq![c]);
        assert(without_crlf(text).push(c) =~= seq![c]);
    } else if text.len() == 1 {
        assert(without_crlf(text.skip(1)) =~= Seq::<char>::empty());
        assert(without_crlf(text) =~= seq![text[0]]);
        if text[0] == '\r' && c == '\n' {
            assert(more.skip(2) =~= Seq::<char>::empty());
            assert(without_crlf(more.skip(2)) =~= Seq::<char>::empty());
            assert(without_crlf(more) =~= seq!['\n']);
            assert(without_crlf(text).drop_last().push('\n') =~= seq!['\n']);
        } else {
            lemma_without_crlf_push(text.skip(1), c);
            assert(more.skip(1) =~= text.skip(1).push(c));
            assert(without_crlf(more) =~= seq![text[0], c]);
            assert(without_crlf(text).push(c) =~= seq![text[0], c]);
        }
    } else if text[0] == '\r' && text[1] == '\n' {
        let rest = text.skip(2);
        lemma_without_crlf_push(rest, c);
        assert(more.skip(2) =~= rest.push(c));
        if rest.len() > 0 {
            assert(rest.last() == text.last());
        }
        if text.last() == '\r' {
            assert(rest.len() > 0);
            assert(without_crlf(text) =~= seq!['\n'] + without_crlf(rest));
            if c == '\n' {
                assert(without_crlf(more) =~= without_crlf(text).drop_last().push('\n'));
            } else {
                assert(without_crlf(more) =~= without_crlf(text).push(c));
            }
        } else {
            assert(without_crlf(more) =~= without_crlf(text).push(c));
        }
    } else {
        let rest = text.skip(1);
        lemma_without_crlf_push(rest, c);
        assert(more.skip(1) =~= rest.push(c));
        assert(rest.last() == text.last());
        assert(without_crlf(text) =~= seq![text[0]] + without_crlf(rest));
        if text.last() == '\r' && c == '\n' {
            assert(without_crlf(more) =~= without_crlf(text).drop_last().push('\n'));
        } else {
            assert(without_crlf(more) =~= without_crlf(text).push(c));
        }
    }
}

/// Writes every line feed of `text` as carriage return and line feed.
pub fn to_crlf(text: &str) -> (out: String)
    ensures
        out@ == with_crlf(text@),
{
    let mut out = String::new();
    for c in it: text.chars()
        invariant
            it.seq() == text@,
            out@ == with_crlf(text@.take(it.index() as int)),
    {
        proof {
            lemma_with_crlf_push(text@.take(it.index() as int), c);
            assert(text@.take(it.index() as int).push(c) =~= text@.take(it.index() + 1));
        }
        if c == '\n' {
            out.push('\r');
        }
        out.push(c);
    }
    proof {
        assert(text@.take(text@.len() as int) =~= text@);
    }
    out
}

/// Writes every carriage return and line feed pair of `text` as a line feed.
pub fn from_crlf(text: &str) -> (out: String)
    ensures
        out@ == without_crlf(text@),
{
    let mut out = String::new();
    // A carriage return has been read and is not written yet.
    let mut held = false;
    for c in it: text.chars()
        invariant
            it.seq() == text@,
            held <==> it.index() > 0 && text@[it.index() - 1] == '\r',
            without_crlf(text@.take(it.index() as int)) == if held {
                out@.push('\r')
            } else {
                out@
            },
    {
        proof {
            let seen = text@.take(it.index() as int);
            lemma_without_crlf_push(seen, c);
            assert(seen.push(c) =~= text@.take(it.index() + 1));
            if held {
                assert(seen.last() == '\r');
                assert(out@.push('\r').drop_last() =~= out@);
            }
        }
        if held && c != '\n' {
            out.push('\r');
        }
        if c == '\r' {
            held = true;
        } else {
            out.push(c);
            held = false;
        }
    }
    if held {
        out.push('\r');
    }
    proof {
        assert(text@.take(text@.len() as int) =~= text@);
    }
    out
}

proof fn lemma_with_crlf_head(text: Seq<char>)
    ensures
        with_crlf(text).len() > 0 ==> with_crlf(text)[0] != '\n',
        text.len() > 0 ==> with_crlf(text).len() > 0,
    decreases text.len(),
{
    if text.len() > 0 {
        assert(with_crlf(text) =~= crlf_of(text[0]) + with_crlf(text.skip(1)));
    }
}

/// Line endings survive the way out and back: text written with carriage
/// return and line feed, then read with the pairs folded again, is the text
/// that was given.
pub proof fn lemma_crlf_round_trip(text: Seq<char>)
    ensures
        without_crlf(with_crlf(text)) == text,
    decreases text.len(),
{
    if text.len() == 0 {
        assert(without_crlf(with_crlf(text)) =~= text);
    } else {
        let rest = text.skip(1);
        let tail = with_crlf(rest);
        lemma_crlf_round_trip(rest);
        lemma_with_crlf_head(rest);
        let whole = with_crlf(text);
        assert(whole =~= crlf_of(text[0]) + tail);
        if text[0] == '\n' {
            assert(whole.skip(2) =~= tail);
            assert(without_crlf(whole) =~= seq!['\n'] + rest);
        } else {
            assert(whole.skip(1) =~= tail);
            assert(whole[0] == text[0]);
            if whole.len() >= 2 {
                assert(whole[1] == tail[0]);
            }
            assert(without_crlf(whole) =~= seq![text[0]] + rest);
        }
        assert(seq![text[0]] + rest =~= text);
    }
}

} // verus!
