//! The byte layout of stored records.
//!
//! A record is the concatenation of its fields. Integers are little endian
//! and of fixed width; a run of bytes is preceded by its length as a 64-bit
//! integer; a flag is one byte, 0 or 1. Decoding reads the fields back from
//! the front and fails on anything that encoding would not have produced.

use vstd::bytes::*;
use vstd::prelude::*;
use vstd::slice::*;
use vstd::utf8::*;

verus! {

/// The eight bytes of a 64-bit integer.
pub open spec fn u64_encoding(x: u64) -> Seq<u8> {
    spec_u64_to_le_bytes(x)
}

/// The sixteen bytes of a 128-bit integer.
pub open spec fn u128_encoding(x: u128) -> Seq<u8> {
    spec_u128_to_le_bytes(x)
}

/// The single byte of a flag.
pub open spec fn flag_encoding(flag: bool) -> Seq<u8> {
    seq![if flag { 1u8 } else { 0u8 }]
}

/// A run of bytes, preceded by its length.
pub open spec fn blob_encoding(blob: Seq<u8>) -> Seq<u8>
    recommends
        blob.len() <= u64::MAX,
{
    u64_encoding(blob.len() as u64) + blob
}

/// A 64-bit integer read from the front of `s`, and what follows it.
pub open spec fn take_u64(s: Seq<u8>) -> Option<(u64, Seq<u8>)> {
    if s.len() >= 8 {
        Some((spec_u64_from_le_bytes(s.subrange(0, 8)), s.skip(8)))
    } else {
        None
    }
}

/// A 128-bit integer read from the front of `s`, and what follows it.
pub open spec fn take_u128(s: Seq<u8>) -> Option<(u128, Seq<u8>)> {
    if s.len() >= 16 {
        Some((spec_u128_from_le_bytes(s.subrange(0, 16)), s.skip(16)))
    } else {
        None
    }
}

/// A flag read from the front of `s`, and what follows it.
pub open spec fn take_flag(s: Seq<u8>) -> Option<(bool, Seq<u8>)> {
    if s.len() >= 1 && s[0] <= 1 {
        Some((s[0] == 1, s.skip(1)))
    } else {
        None
    }
}

/// A run of bytes read from the front of `s`, and what follows it.
pub open spec fn take_blob(s: Seq<u8>) -> Option<(Seq<u8>, Seq<u8>)> {
    match take_u64(s) {
        Some((n, rest)) => if n <= rest.len() {
            Some((rest.subrange(0, n as int), rest.skip(n as int)))
        } else {
            None
        },
        None => None,
    }
}

/// Reading a 64-bit integer gives back what was written, and leaves the rest.
pub proof fn lemma_take_u64(x: u64, rest: Seq<u8>)
    ensures
        take_u64(u64_encoding(x) + rest) == Some((x, rest)),
{
    lemma_auto_spec_u64_to_from_le_bytes();
    let s = u64_encoding(x) + rest;
    assert(s.subrange(0, 8) =~= u64_encoding(x));
    assert(s.skip(8) =~= rest);
}

/// Reading a 128-bit integer gives back what was written, and leaves the rest.
pub proof fn lemma_take_u128(x: u128, rest: Seq<u8>)
    ensures
        take_u128(u128_encoding(x) + rest) == Some((x, rest)),
{
    lemma_auto_spec_u128_to_from_le_bytes();
    let s = u128_encoding(x) + rest;
    assert(s.subrange(0, 16) =~= u128_encoding(x));
    assert(s.skip(16) =~= rest);
}

/// Reading a flag gives back what was written, and leaves the rest.
pub proof fn lemma_take_flag(flag: bool, rest: Seq<u8>)
    ensures
        take_flag(flag_encoding(flag) + rest) == Some((flag, rest)),
{
    let s = flag_encoding(flag) + rest;
    assert(s.skip(1) =~= rest);
}

/// Reading a run of bytes gives back what was written, and leaves the rest.
pub proof fn lemma_take_blob(blob: Seq<u8>, rest: Seq<u8>)
    requires
        blob.len() <= u64::MAX,
    ensures
        take_blob(blob_encoding(blob) + rest) == Some((blob, rest)),
{
    let s = blob_encoding(blob) + rest;
    assert(s =~= u64_encoding(blob.len() as u64) + (blob + rest));
    lemma_take_u64(blob.len() as u64, blob + rest);
    assert((blob + rest).subrange(0, blob.len() as int) =~= blob);
    assert((blob + rest).skip(blob.len() as int) =~= rest);
}

/// Appends `bytes` to `out`.
pub fn put_bytes(out: &mut Vec<u8>, bytes: &[u8])
    ensures
        final(out)@ == old(out)@ + bytes@,
{
    let mut i: usize = 0;
    while i < bytes.len()
        invariant
            i <= bytes@.len(),
            out@ == old(out)@ + bytes@.subrange(0, i as int),
        decreases bytes@.len() - i,
    {
        out.push(bytes[i]);
        i += 1;
        assert(out@ =~= old(out)@ + bytes@.subrange(0, i as int));
    }
    assert(out@ =~= old(out)@ + bytes@);
}

/// Appends a 64-bit integer to `out`.
pub fn put_u64(out: &mut Vec<u8>, x: u64)
    ensures
        final(out)@ == old(out)@ + u64_encoding(x),
{
    let bytes = u64_to_le_bytes(x);
    put_bytes(out, bytes.as_slice());
}

/// Appends a 128-bit integer to `out`.
pub fn put_u128(out: &mut Vec<u8>, x: u128)
    ensures
        final(out)@ == old(out)@ + u128_encoding(x),
{
    let bytes = u128_to_le_bytes(x);
    put_bytes(out, bytes.as_slice());
}

/// Appends a flag to `out`.
pub fn put_flag(out: &mut Vec<u8>, flag: bool)
    ensures
        final(out)@ == old(out)@ + flag_encoding(flag),
{
    out.push(if flag { 1u8 } else { 0u8 });
    assert(out@ =~= old(out)@ + flag_encoding(flag));
}

/// Appends a run of bytes, preceded by its length, to `out`.
pub fn put_blob(out: &mut Vec<u8>, blob: &[u8])
    ensures
        final(out)@ == old(out)@ + blob_encoding(blob@),
{
    let n: usize = blob.len();
    put_u64(out, n as u64);
    put_bytes(out, blob);
    assert(out@ =~= old(out)@ + blob_encoding(blob@));
}

/// What is left of `bytes` from position `at` on.
pub open spec fn tail(bytes: Seq<u8>, at: int) -> Seq<u8> {
    bytes.skip(at)
}

/// Reads a 64-bit integer at `at`; gives it with the position behind it.
pub fn get_u64(bytes: &[u8], at: usize) -> (r: Option<(u64, usize)>)
    requires
        at <= bytes@.len(),
    ensures
        r is Some <==> take_u64(tail(bytes@, at as int)) is Some,
        r matches Some((x, next)) ==> at <= next <= bytes@.len() && take_u64(
            tail(bytes@, at as int),
        ) == Some((x, tail(bytes@, next as int))),
{
    if bytes.len() - at < 8 {
        return None;
    }
    let x = u64_from_le_bytes(slice_subrange(bytes, at, at + 8));
    assert(tail(bytes@, at as int).subrange(0, 8) =~= bytes@.subrange(at as int, at + 8));
    assert(tail(bytes@, at as int).skip(8) =~= tail(bytes@, at + 8));
    Some((x, at + 8))
}

/// Reads a 128-bit integer at `at`; gives it with the position behind it.
pub fn get_u128(bytes: &[u8], at: usize) -> (r: Option<(u128, usize)>)
    requires
        at <= bytes@.len(),
    ensures
        r is Some <==> take_u128(tail(bytes@, at as int)) is Some,
        r matches Some((x, next)) ==> at <= next <= bytes@.len() && take_u128(
            tail(bytes@, at as int),
        ) == Some((x, tail(bytes@, next as int))),
{
    if bytes.len() - at < 16 {
        return None;
    }
    let x = u128_from_le_bytes(slice_subrange(bytes, at, at + 16));
    assert(tail(bytes@, at as int).subrange(0, 16) =~= bytes@.subrange(at as int, at + 16));
    assert(tail(bytes@, at as int).skip(16) =~= tail(bytes@, at + 16));
    Some((x, at + 16))
}

/// Reads a flag at `at`; gives it with the position behind it.
pub fn get_flag(bytes: &[u8], at: usize) -> (r: Option<(bool, usize)>)
    requires
        at <= bytes@.len(),
    ensures
        r is Some <==> take_flag(tail(bytes@, at as int)) is Some,
        r matches Some((flag, next)) ==> at <= next <= bytes@.len() && take_flag(
            tail(bytes@, at as int),
        ) == Some((flag, tail(bytes@, next as int))),
{
    if bytes.len() - at < 1 {
        return None;
    }
    let b = bytes[at];
    assert(tail(bytes@, at as int)[0] == b);
    if b > 1 {
        return None;
    }
    assert(tail(bytes@, at as int).skip(1) =~= tail(bytes@, at + 1));
    Some((b == 1, at + 1))
}

/// Reads a run of bytes at `at`; gives it with the position behind it.
pub fn get_blob(bytes: &[u8], at: usize) -> (r: Option<(Vec<u8>, usize)>)
    requires
        at <= bytes@.len(),
    ensures
        r is Some <==> take_blob(tail(bytes@, at as int)) is Some,
        r matches Some((blob, next)) ==> at <= next <= bytes@.len() && take_blob(
            tail(bytes@, at as int),
        ) == Some((blob@, tail(bytes@, next as int))),
{
    match get_u64(bytes, at) {
        None => None,
        Some((n, start)) => {
            let left: usize = bytes.len() - start;
            if n > left as u64 {
                return None;
            }
            let end: usize = start + n as usize;
            let blob = slice_to_vec(slice_subrange(bytes, start, end));
            assert(tail(bytes@, start as int).subrange(0, n as int) =~= bytes@.subrange(
                start as int,
                end as int,
            ));
            assert(tail(bytes@, start as int).skip(n as int) =~= tail(bytes@, end as int));
            Some((blob, end))
        },
    }
}

/// The text that `bytes` spell in UTF-8, or `None` where they spell none.
#[verifier::external_body]
fn text_of_utf8(bytes: Vec<u8>) -> (r: Option<String>)
    ensures
        r is Some <==> valid_utf8(bytes@),
        r is Some ==> r->0@ == decode_utf8(bytes@),
{
    String::from_utf8(bytes).ok()
}

/// A text as it is stored: its UTF-8 bytes, preceded by their number.
pub open spec fn text_encoding(text: Seq<char>) -> Seq<u8>
    recommends
        encode_utf8(text).len() <= u64::MAX,
{
    blob_encoding(encode_utf8(text))
}

/// A text read from the front of `s`, and what follows it.
pub open spec fn take_text(s: Seq<u8>) -> Option<(Seq<char>, Seq<u8>)> {
    match take_blob(s) {
        Some((blob, rest)) => if valid_utf8(blob) {
            Some((decode_utf8(blob), rest))
        } else {
            None
        },
        None => None,
    }
}

/// Reading a text gives back what was written, and leaves the rest.
pub proof fn lemma_take_text(text: Seq<char>, rest: Seq<u8>)
    requires
        encode_utf8(text).len() <= u64::MAX,
    ensures
        take_text(text_encoding(text) + rest) == Some((text, rest)),
{
    lemma_take_blob(encode_utf8(text), rest);
    encode_utf8_valid_utf8(text);
    encode_utf8_decode_utf8(text);
}

/// Appends a text to `out`.
pub fn put_text(out: &mut Vec<u8>, text: &str)
    ensures
        final(out)@ == old(out)@ + text_encoding(text@),
{
    put_blob(out, text.as_bytes());
}

/// Reads a text at `at`; gives it with the position behind it.
pub fn get_text(bytes: &[u8], at: usize) -> (r: Option<(String, usize)>)
    requires
        at <= bytes@.len(),
    ensures
        r is Some <==> take_text(tail(bytes@, at as int)) is Some,
        r matches Some((text, next)) ==> at <= next <= bytes@.len() && take_text(
            tail(bytes@, at as int),
        ) == Some((text@, tail(bytes@, next as int))),
{
    match get_blob(bytes, at) {
        None => None,
        Some((blob, next)) => match text_of_utf8(blob) {
            Some(text) => Some((text, next)),
            None => None,
        },
    }
}

/// An optional 64-bit integer: a flag, followed by the value where there is one.
pub open spec fn opt_u64_encoding(value: Option<u64>) -> Seq<u8> {
    match value {
        Some(v) => flag_encoding(true) + u64_encoding(v),
        None => flag_encoding(false),
    }
}

/// An optional 64-bit integer read from the front of `s`, and what follows it.
pub open spec fn take_opt_u64(s: Seq<u8>) -> Option<(Option<u64>, Seq<u8>)> {
    match take_flag(s) {
        Some((true, rest)) => match take_u64(rest) {
            Some((v, rest)) => Some((Some(v), rest)),
            None => None,
        },
        Some((false, rest)) => Some((None, rest)),
        None => None,
    }
}

/// Reading an optional 64-bit integer gives back what was written, and leaves the rest.
pub proof fn lemma_take_opt_u64(value: Option<u64>, rest: Seq<u8>)
    ensures
        take_opt_u64(opt_u64_encoding(value) + rest) == Some((value, rest)),
{
    match value {
        Some(v) => {
            assert(opt_u64_encoding(value) + rest =~= flag_encoding(true) + (u64_encoding(v)
                + rest));
            lemma_take_flag(true, u64_encoding(v) + rest);
            lemma_take_u64(v, rest);
        },
        None => {
            lemma_take_flag(false, rest);
        },
    }
}

/// An optional 128-bit integer: a flag, followed by the value where there is one.
pub open spec fn opt_u128_encoding(value: Option<u128>) -> Seq<u8> {
    match value {
        Some(v) => flag_encoding(true) + u128_encoding(v),
        None => flag_encoding(false),
    }
}

/// An optional 128-bit integer read from the front of `s`, and what follows it.
pub open spec fn take_opt_u128(s: Seq<u8>) -> Option<(Option<u128>, Seq<u8>)> {
    match take_flag(s) {
        Some((true, rest)) => match take_u128(rest) {
            Some((v, rest)) => Some((Some(v), rest)),
            None => None,
        },
        Some((false, rest)) => Some((None, rest)),
        None => None,
    }
}

/// Reading an optional 128-bit integer gives back what was written, and leaves the rest.
pub proof fn lemma_take_opt_u128(value: Option<u128>, rest: Seq<u8>)
    ensures
        take_opt_u128(opt_u128_encoding(value) + rest) == Some((value, rest)),
{
    match value {
        Some(v) => {
            assert(opt_u128_encoding(value) + rest =~= flag_encoding(true) + (u128_encoding(v)
                + rest));
            lemma_take_flag(true, u128_encoding(v) + rest);
            lemma_take_u128(v, rest);
        },
        None => {
            lemma_take_flag(false, rest);
        },
    }
}

/// An optional run of bytes: a flag, followed by the value where there is one.
pub open spec fn opt_blob_encoding(value: Option<Seq<u8>>) -> Seq<u8> {
    match value {
        Some(v) => flag_encoding(true) + blob_encoding(v),
        None => flag_encoding(false),
    }
}

/// An optional run of bytes read from the front of `s`, and what follows it.
pub open spec fn take_opt_blob(s: Seq<u8>) -> Option<(Option<Seq<u8>>, Seq<u8>)> {
    match take_flag(s) {
        Some((true, rest)) => match take_blob(rest) {
            Some((v, rest)) => Some((Some(v), rest)),
            None => None,
        },
        Some((false, rest)) => Some((None, rest)),
        None => None,
    }
}

/// Reading an optional run of bytes gives back what was written, and leaves the rest.
pub proof fn lemma_take_opt_blob(value: Option<Seq<u8>>, rest: Seq<u8>)
    requires
        value matches Some(v) ==> v.len() <= u64::MAX,
    ensures
        take_opt_blob(opt_blob_encoding(value) + rest) == Some((value, rest)),
{
    match value {
        Some(v) => {
            assert(opt_blob_encoding(value) + rest =~= flag_encoding(true) + (blob_encoding(v)
                + rest));
            lemma_take_flag(true, blob_encoding(v) + rest);
            lemma_take_blob(v, rest);
        },
        None => {
            lemma_take_flag(false, rest);
        },
    }
}

/// An optional text: a flag, followed by the value where there is one.
pub open spec fn opt_text_encoding(value: Option<Seq<char>>) -> Seq<u8> {
    match value {
        Some(v) => flag_encoding(true) + text_encoding(v),
        None => flag_encoding(false),
    }
}

/// An optional text read from the front of `s`, and what follows it.
pub open spec fn take_opt_text(s: Seq<u8>) -> Option<(Option<Seq<char>>, Seq<u8>)> {
    match take_flag(s) {
        Some((true, rest)) => match take_text(rest) {
            Some((v, rest)) => Some((Some(v), rest)),
            None => None,
        },
        Some((false, rest)) => Some((None, rest)),
        None => None,
    }
}

/// Reading an optional text gives back what was written, and leaves the rest.
pub proof fn lemma_take_opt_text(value: Option<Seq<char>>, rest: Seq<u8>)
    requires
        value matches Some(v) ==> encode_utf8(v).len() <= u64::MAX,
    ensures
        take_opt_text(opt_text_encoding(value) + rest) == Some((value, rest)),
{
    match value {
        Some(v) => {
            assert(opt_text_encoding(value) + rest =~= flag_encoding(true) + (text_encoding(v)
                + rest));
            lemma_take_flag(true, text_encoding(v) + rest);
            lemma_take_text(v, rest);
        },
        None => {
            lemma_take_flag(false, rest);
        },
    }
}

/// Appends an optional 64-bit integer to `out`.
pub fn put_opt_u64(out: &mut Vec<u8>, value: Option<u64>)
    ensures
        final(out)@ == old(out)@ + opt_u64_encoding(value),
{
    match value {
        Some(v) => {
            put_flag(out, true);
            put_u64(out, v);
        },
        None => {
            put_flag(out, false);
        },
    }
    assert(out@ =~= old(out)@ + opt_u64_encoding(value));
}

/// Appends an optional 128-bit integer to `out`.
pub fn put_opt_u128(out: &mut Vec<u8>, value: Option<u128>)
    ensures
        final(out)@ == old(out)@ + opt_u128_encoding(value),
{
    match value {
        Some(v) => {
            put_flag(out, true);
            put_u128(out, v);
        },
        None => {
            put_flag(out, false);
        },
    }
    assert(out@ =~= old(out)@ + opt_u128_encoding(value));
}

/// Reads an optional 64-bit integer at `at`; gives it with the position behind it.
pub fn get_opt_u64(bytes: &[u8], at: usize) -> (r: Option<(Option<u64>, usize)>)
    requires
        at <= bytes@.len(),
    ensures
        r is Some <==> take_opt_u64(tail(bytes@, at as int)) is Some,
        r matches Some((value, next)) ==> at <= next <= bytes@.len() && take_opt_u64(
            tail(bytes@, at as int),
        ) == Some((value, tail(bytes@, next as int))),
{
    match get_flag(bytes, at) {
        None => None,
        Some((false, next)) => Some((None, next)),
        Some((true, next)) => match get_u64(bytes, next) {
            Some((v, next)) => Some((Some(v), next)),
            None => None,
        },
    }
}

/// Reads an optional 128-bit integer at `at`; gives it with the position behind it.
pub fn get_opt_u128(bytes: &[u8], at: usize) -> (r: Option<(Option<u128>, usize)>)
    requires
        at <= bytes@.len(),
    ensures
        r is Some <==> take_opt_u128(tail(bytes@, at as int)) is Some,
        r matches Some((value, next)) ==> at <= next <= bytes@.len() && take_opt_u128(
            tail(bytes@, at as int),
        ) == Some((value, tail(bytes@, next as int))),
{
    match get_flag(bytes, at) {
        None => None,
        Some((false, next)) => Some((None, next)),
        Some((true, next)) => match get_u128(bytes, next) {
            Some((v, next)) => Some((Some(v), next)),
            None => None,
        },
    }
}

/// Reads an optional run of bytes at `at`; gives it with the position behind it.
pub fn get_opt_blob(bytes: &[u8], at: usize) -> (r: Option<(Option<Vec<u8>>, usize)>)
    requires
        at <= bytes@.len(),
    ensures
        r is Some <==> take_opt_blob(tail(bytes@, at as int)) is Some,
        r matches Some((value, next)) ==> at <= next <= bytes@.len() && take_opt_blob(
            tail(bytes@, at as int),
        ) == Some((value.deep_view(), tail(bytes@, next as int))),
{
    match get_flag(bytes, at) {
        None => None,
        Some((false, next)) => Some((None, next)),
        Some((true, next)) => match get_blob(bytes, next) {
            Some((v, next)) => {
                assert(v.deep_view() =~= v@);
                Some((Some(v), next))
            },
            None => None,
        },
    }
}

/// Reads an optional text at `at`; gives it with the position behind it.
pub fn get_opt_text(bytes: &[u8], at: usize) -> (r: Option<(Option<String>, usize)>)
    requires
        at <= bytes@.len(),
    ensures
        r is Some <==> take_opt_text(tail(bytes@, at as int)) is Some,
        r matches Some((value, next)) ==> at <= next <= bytes@.len() && take_opt_text(
            tail(bytes@, at as int),
        ) == Some((value.deep_view(), tail(bytes@, next as int))),
{
    match get_flag(bytes, at) {
        None => None,
        Some((false, next)) => Some((None, next)),
        Some((true, next)) => match get_text(bytes, next) {
            Some((v, next)) => Some((Some(v), next)),
            None => None,
        },
    }
}

} // verus!
