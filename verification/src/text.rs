//! Text handling for what a child process wrote: decoding and trimming.

use std::string::FromUtf8Error;
use vstd::prelude::*;
use vstd::utf8::{decode_utf8, valid_utf8};

verus! {

/// `std::string::FromUtf8Error`, carried from the decoder to its description.
#[verifier::external_type_specification]
#[verifier::external_body]
pub struct ExFromUtf8Error(FromUtf8Error);

/// The bytes that a decoding error holds: those that were refused, as
/// `FromUtf8Error::as_bytes` reports them.
pub uninterp spec fn refused_bytes(error: FromUtf8Error) -> Seq<u8>;

/// The description that `FromUtf8Error` displays for refused bytes.
pub uninterp spec fn refusal_text(bytes: Seq<u8>) -> Seq<char>;

/// `String::from_utf8` accepts exactly the well-formed UTF-8 sequences and
/// decodes them; for any other sequence its error holds the bytes it was given.
pub assume_specification[ String::from_utf8 ](vec: Vec<u8>) -> (result: Result<
    String,
    FromUtf8Error,
>)
    ensures
        valid_utf8(vec@) ==> result is Ok && result->Ok_0@ == decode_utf8(vec@),
        !valid_utf8(vec@) ==> result is Err && refused_bytes(result->Err_0) == vec@,
;

/// `FromUtf8Error`'s `Display`: the description is determined by the bytes
/// that were refused.
#[verifier::external_body]
fn describe_refusal(error: &FromUtf8Error) -> (text: String)
    ensures
        text@ == refusal_text(refused_bytes(*error)),
{
    error.to_string()
}

/// What decoding bytes as UTF-8 gives: the characters, or why they are none.
pub open spec fn decoded(bytes: Seq<u8>) -> Result<Seq<char>, Seq<char>> {
    if valid_utf8(bytes) {
        Ok(decode_utf8(bytes))
    } else {
        Err(refusal_text(bytes))
    }
}

/// The view of a decoding result.
pub open spec fn text_of(outcome: Result<String, String>) -> Result<Seq<char>, Seq<char>> {
    match outcome {
        Ok(text) => Ok(text@),
        Err(reason) => Err(reason@),
    }
}

/// Decodes bytes as UTF-8 text, or says why they are not.
pub fn decode(bytes: Vec<u8>) -> (outcome: Result<String, String>)
    ensures
        text_of(outcome) == decoded(bytes@),
{
    match String::from_utf8(bytes) {
        Ok(text) => Ok(text),
        Err(error) => Err(describe_refusal(&error)),
    }
}

/// Whether `text` ends with `tail`.
pub open spec fn ends_with(text: Seq<char>, tail: Seq<char>) -> bool {
    &&& tail.len() <= text.len()
    &&& text.subrange(text.len() - tail.len(), text.len() as int) == tail
}

/// Whether a character has the Unicode `White_Space` property: the controls
/// from tab to carriage return, the space, the next-line control, the
/// no-break space, the Ogham space mark, the spaces from the en quad to the
/// hair space, the line and the paragraph separator, the narrow no-break
/// space, the medium mathematical space and the ideographic space.
pub open spec fn is_white_space(c: char) -> bool {
    let code = c as u32;
    ||| 0x0009 <= code <= 0x000d
    ||| code == 0x0020
    ||| code == 0x0085
    ||| code == 0x00a0
    ||| code == 0x1680
    ||| 0x2000 <= code <= 0x200a
    ||| code == 0x2028
    ||| code == 0x2029
    ||| code == 0x202f
    ||| code == 0x205f
    ||| code == 0x3000
}

/// `char::is_whitespace` says whether the character has the Unicode
/// `White_Space` property.
pub assume_specification[ char::is_whitespace ](c: char) -> (blank: bool)
    ensures
        blank == is_white_space(c),
;

/// A text without its leading white space.
pub open spec fn trim_start(text: Seq<char>) -> Seq<char>
    decreases text.len(),
{
    if text.len() > 0 && is_white_space(text.first()) {
        trim_start(text.drop_first())
    } else {
        text
    }
}

/// A text without its trailing white space.
pub open spec fn trim_end(text: Seq<char>) -> Seq<char>
    decreases text.len(),
{
    if text.len() > 0 && is_white_space(text.last()) {
        trim_end(text.drop_last())
    } else {
        text
    }
}

/// A text without its leading and trailing white space.
pub open spec fn trimmed(text: Seq<char>) -> Seq<char> {
    trim_end(trim_start(text))
}

/// Every character of `text` from `from` up to `to` is white space.
pub open spec fn blank_between(text: Seq<char>, from: int, to: int) -> bool {
    forall|i: int| from <= i < to ==> is_white_space(#[trigger] text[i])
}

/// Leading white space ends at the first character that is none.
pub proof fn lemma_trim_start_at(text: Seq<char>, start: int)
    requires
        0 <= start <= text.len(),
        blank_between(text, 0, start),
        start < text.len() ==> !is_white_space(text[start]),
    ensures
        trim_start(text) == text.subrange(start, text.len() as int),
    decreases start,
{
    if start == 0 {
        assert(text.subrange(0, text.len() as int) =~= text);
    } else {
        let rest = text.drop_first();
        assert(is_white_space(text[0]));
        assert forall|i: int| 0 <= i < start - 1 implies is_white_space(#[trigger] rest[i]) by {
            assert(rest[i] == text[i + 1]);
        }
        lemma_trim_start_at(rest, start - 1);
        assert(rest.subrange(start - 1, rest.len() as int) =~= text.subrange(
            start,
            text.len() as int,
        ));
    }
}

/// Trailing white space begins after the last character that is none.
pub proof fn lemma_trim_end_at(text: Seq<char>, end: int)
    requires
        0 <= end <= text.len(),
        blank_between(text, end, text.len() as int),
        end > 0 ==> !is_white_space(text[end - 1]),
    ensures
        trim_end(text) == text.subrange(0, end),
    decreases text.len() - end,
{
    if end == text.len() {
        assert(text.subrange(0, end) =~= text);
    } else {
        let rest = text.drop_last();
        assert(is_white_space(text[text.len() - 1]));
        assert forall|i: int| end <= i < rest.len() implies is_white_space(#[trigger] rest[i]) by {
            assert(rest[i] == text[i]);
        }
        lemma_trim_end_at(rest, end);
        assert(rest.subrange(0, end) =~= text.subrange(0, end));
    }
}

/// The text without its leading and trailing white space.
pub fn trim(text: &str) -> (kept: String)
    ensures
        kept@ == trimmed(text@),
{
    let count = text.unicode_len();
    let mut start: usize = 0;
    let mut end: usize = 0;
    let mut at: usize = 0;
    let chars = text.chars();
    for c in it: chars
        invariant
            it.seq() == text@,
            count == text@.len(),
            at == it.index(),
            start <= end <= at <= count,
            start == end ==> start == at,
            blank_between(text@, 0, start as int),
            blank_between(text@, end as int, at as int),
            start < end ==> !is_white_space(text@[start as int]) && !is_white_space(
                text@[end - 1],
            ),
    {
        if !c.is_whitespace() {
            end = at + 1;
        } else if start == end {
            start = at + 1;
            end = at + 1;
        }
        at = at + 1;
    }
    proof {
        lemma_trim_start_at(text@, start as int);
        let tail = text@.subrange(start as int, count as int);
        assert forall|i: int| end - start <= i < tail.len() implies is_white_space(
            #[trigger] tail[i],
        ) by {
            assert(tail[i] == text@[start + i]);
        }
        lemma_trim_end_at(tail, end - start);
        assert(tail.subrange(0, end - start) =~= text@.subrange(start as int, end as int));
    }
    text.substring_char(start, end).to_owned()
}

} // verus!
