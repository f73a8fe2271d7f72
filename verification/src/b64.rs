//! Decoding of base64 payloads that may be broken up by whitespace.

use crate::error::Error;
use crate::text::push_char;
use base64::Engine;
use vstd::prelude::*;
use vstd::string::*;

verus! {

/// Whether `c` has the Unicode `White_Space` property.
pub open spec fn is_whitespace(c: char) -> bool {
    let code = c as u32;
    ||| 0x09 <= code <= 0x0D
    ||| code == 0x20
    ||| code == 0x85
    ||| code == 0xA0
    ||| code == 0x1680
    ||| 0x2000 <= code <= 0x200A
    ||| code == 0x2028
    ||| code == 0x2029
    ||| code == 0x202F
    ||| code == 0x205F
    ||| code == 0x3000
}

/// `text` without its whitespace characters, the others in their order.
pub open spec fn without_whitespace(text: Seq<char>) -> Seq<char> {
    text.filter(|c: char| !is_whitespace(c))
}

/// What the standard base64 decoder (the alphabet `A-Z a-z 0-9 + /`,
/// padding with `=` required) makes of `text`: the decoded bytes, or `None`
/// where it refuses `text`.
pub uninterp spec fn standard_decoding(text: Seq<char>) -> Option<Seq<u8>>;

/// What `decode` yields for `encoded`: the decoding of what is left of it
/// once whitespace is removed.
pub open spec fn decoding(encoded: Seq<char>) -> Option<Seq<u8>> {
    standard_decoding(without_whitespace(encoded))
}

/// Tells whether `c` is a whitespace character.
pub fn char_is_whitespace(c: char) -> (white: bool)
    ensures
        white == is_whitespace(c),
{
    let code: u32 = c as u32;
    if code < 0x80 {
        (0x09 <= code && code <= 0x0D) || code == 0x20
    } else if code < 0x2000 {
        code == 0x85 || code == 0xA0 || code == 0x1680
    } else {
        code <= 0x200A || code == 0x2028 || code == 0x2029 || code == 0x202F || code == 0x205F
            || code == 0x3000
    }
}

/// Removes every whitespace character from `text`.
pub fn strip_whitespace(text: &str) -> (stripped: String)
    ensures
        stripped@ == without_whitespace(text@),
{
    let mut stripped = String::new();
    let ghost keep = |c: char| !is_whitespace(c);
    let ghost mut seen: int = 0;
    assert(text@.take(0).filter(keep) == Seq::<char>::empty());
    for c in it: text.chars()
        invariant
            seen == it.index(),
            it.seq() == text@,
            keep == |c: char| !is_whitespace(c),
            stripped@ == text@.take(seen).filter(keep),
    {
        proof {
            let longer = text@.take(seen + 1);
            assert(longer.drop_last() == text@.take(seen));
            assert(longer.last() == c);
            reveal(Seq::filter);
        }
        if !char_is_whitespace(c) {
            push_char(&mut stripped, c);
        }
        proof {
            seen = seen + 1;
        }
    }
    assert(text@.take(seen) == text@);
    stripped
}

/// `base64::engine::general_purpose::STANDARD.decode`: decodes `text` with
/// the standard alphabet, padding required. It succeeds exactly on the texts
/// that have a standard decoding, and then returns those bytes.
#[verifier::external_body]
fn standard_decode(text: &str) -> (decoded: Result<Vec<u8>, base64::DecodeError>)
    ensures
        decoded is Ok <==> standard_decoding(text@) is Some,
        decoded matches Ok(bytes) ==> standard_decoding(text@) == Some(bytes@),
{
    base64::engine::general_purpose::STANDARD.decode(text)
}

/// What is returned once the decoder has answered: its bytes, or its error
/// as `Error::Base64`.
pub fn decoded_or_error(outcome: Result<Vec<u8>, base64::DecodeError>) -> (result: Result<
    Vec<u8>,
    Error,
>)
    ensures
        match outcome {
            Ok(bytes) => result == Ok::<Vec<u8>, Error>(bytes),
            Err(cause) => result == Err::<Vec<u8>, Error>(Error::Base64(cause)),
        },
{
    match outcome {
        Ok(bytes) => Ok(bytes),
        Err(cause) => Err(Error::Base64(cause)),
    }
}

/// Decodes a base64 payload, ignoring any whitespace in it.
///
/// Succeeds exactly when the payload, with its whitespace removed, is a
/// canonical standard encoding, and then returns the encoded bytes. Any
/// other payload is refused with `Error::Base64`.
pub fn decode(encoded: &str) -> (result: Result<Vec<u8>, Error>)
    ensures
        match decoding(encoded@) {
            Some(bytes) => result matches Ok(decoded) && decoded@ == bytes,
            None => result matches Err(Error::Base64(_)),
        },
{
    let stripped = strip_whitespace(encoded);
    decoded_or_error(standard_decode(stripped.as_str()))
}

/// Filtering what is left of a filter changes nothing.
proof fn lemma_filter_twice(text: Seq<char>, keep: spec_fn(char) -> bool)
    ensures
        text.filter(keep).filter(keep) == text.filter(keep),
    decreases text.len(),
{
    reveal(Seq::filter);
    if text.len() > 0 {
        let rest = text.drop_last().filter(keep);
        lemma_filter_twice(text.drop_last(), keep);
        if keep(text.last()) {
            assert(rest.push(text.last()).drop_last() == rest);
        }
    }
}

/// Nothing is left of a text that is whitespace throughout.
proof fn lemma_blank_vanishes(blank: Seq<char>)
    requires
        forall|i: int| 0 <= i < blank.len() ==> is_whitespace(blank[i]),
    ensures
        without_whitespace(blank) == Seq::<char>::empty(),
    decreases blank.len(),
{
    reveal(Seq::filter);
    if blank.len() > 0 {
        lemma_blank_vanishes(blank.drop_last());
    }
}

/// Removing whitespace a second time removes nothing more.
pub proof fn lemma_stripping_is_idempotent(text: Seq<char>)
    ensures
        without_whitespace(without_whitespace(text)) == without_whitespace(text),
{
    lemma_filter_twice(text, |c: char| !is_whitespace(c));
}

/// A payload decodes to what it decodes to once its whitespace is removed.
pub proof fn lemma_decoding_of_stripped(encoded: Seq<char>)
    ensures
        decoding(encoded) == decoding(without_whitespace(encoded)),
{
    lemma_stripping_is_idempotent(encoded);
}

/// Whitespace makes no difference to decoding, wherever it stands and
/// however much there is of it: with a run of whitespace `blank` put between
/// `before` and `after`, the payload decodes as without it.
pub proof fn lemma_whitespace_is_ignored(before: Seq<char>, blank: Seq<char>, after: Seq<char>)
    requires
        forall|i: int| 0 <= i < blank.len() ==> is_whitespace(blank[i]),
    ensures
        decoding(before + blank + after) == decoding(before + after),
{
    let keep = |c: char| !is_whitespace(c);
    lemma_blank_vanishes(blank);
    Seq::filter_distributes_over_add(before, blank, keep);
    Seq::filter_distributes_over_add(before + blank, after, keep);
    Seq::filter_distributes_over_add(before, after, keep);
    assert(before.filter(keep) + Seq::<char>::empty() == before.filter(keep));
}

/// A payload without whitespace decodes as the standard decoder reads it.
pub proof fn lemma_decoding_without_whitespace(encoded: Seq<char>)
    requires
        forall|i: int| 0 <= i < encoded.len() ==> !is_whitespace(encoded[i]),
    ensures
        decoding(encoded) == standard_decoding(encoded),
{
    lemma_all_kept(encoded);
}

/// A text that holds no whitespace is left as it is.
proof fn lemma_all_kept(text: Seq<char>)
    requires
        forall|i: int| 0 <= i < text.len() ==> !is_whitespace(text[i]),
    ensures
        without_whitespace(text) == text,
    decreases text.len(),
{
    reveal(Seq::filter);
    if text.len() > 0 {
        lemma_all_kept(text.drop_last());
        assert(text.drop_last().push(text.last()) == text);
    }
}

} // verus!
