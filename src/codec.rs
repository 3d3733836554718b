//! A text codec for newline-separated UTF-8 lines over a `BytesMut` buffer:
//! encoding appends a line and a `\n`; decoding takes the bytes up to the
//! next `\n` off the front of the buffer and reads them as UTF-8.
use crate::buf::{buf_bytes, buf_extend, buf_slice, buf_split_to, buf_truncate};
use bytes::BytesMut;
use std::str::Utf8Error;
use vstd::prelude::*;
use vstd::string::StringSliceAdditionalSpecFns;
use vstd::utf8::{decode_utf8, encode_utf8, valid_utf8};

verus! {

broadcast use vstd::utf8::group_utf8_lib;

#[verifier::external_type_specification]
#[verifier::external_body]
pub struct ExIoError(std::io::Error);

#[verifier::external_type_specification]
#[verifier::external_body]
pub struct ExUtf8Error(Utf8Error);

/// The byte that ends a line for this codec.
pub const NEWLINE: u8 = 10;

/// Relies on `std::io::Error::new`: an error of kind `InvalidData` carrying
/// the given message.
#[verifier::external_body]
fn invalid_data(msg: &str) -> std::io::Error {
    std::io::Error::new(std::io::ErrorKind::InvalidData, msg)
}

/// Relies on `std::str::from_utf8`: it succeeds exactly when the bytes are
/// valid UTF-8, and then the text is made of those same bytes.
#[verifier::external_body]
fn str_from_utf8(v: &[u8]) -> (r: Result<&str, Utf8Error>)
    ensures
        match r {
            Ok(s) => valid_utf8(v@) && s.spec_bytes() == v@,
            Err(_) => !valid_utf8(v@),
        },
{
    std::str::from_utf8(v)
}

/// Turns a failed UTF-8 conversion, whatever its error, into the I/O error
/// that the codec reports.
pub fn bad_utf8<E>(_err: E) -> std::io::Error {
    invalid_data("Unable to decode input as UTF8")
}

/// The first index of a newline in `s`, if any.
pub open spec fn first_newline(s: Seq<u8>) -> Option<int> {
    if exists|i: int| 0 <= i < s.len() && s[i] == NEWLINE {
        Some(choose|i: int| 0 <= i < s.len() && s[i] == NEWLINE && forall|k: int| 0 <= k < i ==> s[k] != NEWLINE)
    } else {
        None
    }
}

/// What decoding the bytes `b` as one line's text gives: the text if they
/// are valid UTF-8, else an error.
pub open spec fn text_result(b: Seq<u8>, r: Result<String, std::io::Error>) -> bool {
    match r {
        Ok(t) => valid_utf8(b) && t@ == decode_utf8(b),
        Err(_) => !valid_utf8(b),
    }
}

/// Finds the first newline of `s`.
fn find_newline(s: &[u8]) -> (r: Option<usize>)
    ensures
        match r {
            Some(p) => p < s@.len() && s@[p as int] == NEWLINE && forall|k: int|
                0 <= k < p ==> s@[k] != NEWLINE,
            None => forall|k: int| 0 <= k < s@.len() ==> s@[k] != NEWLINE,
        },
{
    let mut i: usize = 0;
    while i < s.len()
        invariant
            i <= s@.len(),
            forall|k: int| 0 <= k < i ==> s@[k] != NEWLINE,
        decreases s@.len() - i,
    {
        if s[i] == NEWLINE {
            return Some(i);
        }
        i = i + 1;
    }
    None
}

/// Reads bytes as UTF-8 text, reporting invalid input as an I/O error.
fn text_of(b: &[u8]) -> (r: Result<String, std::io::Error>)
    ensures
        text_result(b@, r),
{
    match str_from_utf8(b) {
        Ok(s) => {
            let t = s.to_owned();
            proof {
                assert(decode_utf8(encode_utf8(s@)) == s@);
            }
            Ok(t)
        },
        Err(e) => Err(bad_utf8(e)),
    }
}

/// A line codec with no state of its own.
pub struct LinesCodec;

impl LinesCodec {
    /// Writes out the bytes of the string followed by a new line.
    pub fn encode(&mut self, line: String, buf: &mut BytesMut) -> (r: Result<(), std::io::Error>)
        requires
            buf_bytes(*old(buf)).len() + encode_utf8(line@).len() + 1 <= usize::MAX,
        ensures
            r is Ok,
            buf_bytes(*final(buf)) == buf_bytes(*old(buf)) + encode_utf8(line@) + seq![NEWLINE],
    {
        buf_extend(buf, line.as_str().as_bytes());
        let nl: [u8; 1] = [NEWLINE];
        buf_extend(buf, nl.as_slice());
        assert(buf_bytes(*buf) =~= buf_bytes(*old(buf)) + encode_utf8(line@) + seq![NEWLINE]);
        Ok(())
    }

    /// Takes the next line off the front of `buf`, newline included, and
    /// returns its text without the newline. With no newline in `buf`,
    /// returns `None` and leaves `buf` alone. A line that is not UTF-8 is
    /// taken off all the same, and reported as an error.
    pub fn decode(&mut self, buf: &mut BytesMut) -> (r: Result<Option<String>, std::io::Error>)
        ensures
            match first_newline(buf_bytes(*old(buf))) {
                Some(p) => {
                    let b = buf_bytes(*old(buf));
                    &&& buf_bytes(*final(buf)) == b.subrange(p + 1, b.len() as int)
                    &&& match r {
                        Ok(Some(t)) => text_result(b.subrange(0, p), Ok(t)),
                        Ok(None) => false,
                        Err(e) => text_result(b.subrange(0, p), Err(e)),
                    }
                },
                None => r matches Ok(None) && buf_bytes(*final(buf)) == buf_bytes(*old(buf)),
            },
    {
        let ghost b = buf_bytes(*buf);
        let bytes = buf_slice(buf);
        let len = bytes.len();
        match find_newline(bytes) {
            Some(offset) => {
                assert(offset < len);
                proof {
                    assert(exists|i: int| 0 <= i < b.len() && b[i] == NEWLINE) by {
                        assert(b[offset as int] == NEWLINE);
                    }
                    let q = first_newline(b)->0;
                    if q < offset {
                        assert(b[q] != NEWLINE);
                    }
                    if offset < q {
                        assert(b[offset as int] != NEWLINE);
                    }
                }
                let mut line = buf_split_to(buf, offset + 1);
                buf_truncate(&mut line, offset);
                assert(buf_bytes(line) =~= b.subrange(0, offset as int));
                match text_of(buf_slice(&line)) {
                    Ok(t) => Ok(Some(t)),
                    Err(e) => Err(e),
                }
            },
            None => Ok(None),
        }
    }

    /// Takes the next line off `buf` when no more data will come. With no
    /// newline left, what remains is an unterminated tail: it is discarded,
    /// never delivered as a line, and the result is `None`.
    pub fn decode_eof(&mut self, buf: &mut BytesMut) -> (r: Result<Option<String>, std::io::Error>)
        ensures
            match first_newline(buf_bytes(*old(buf))) {
                Some(p) => {
                    let b = buf_bytes(*old(buf));
                    &&& buf_bytes(*final(buf)) == b.subrange(p + 1, b.len() as int)
                    &&& match r {
                        Ok(Some(t)) => text_result(b.subrange(0, p), Ok(t)),
                        Ok(None) => false,
                        Err(e) => text_result(b.subrange(0, p), Err(e)),
                    }
                },
                None => r matches Ok(None) && buf_bytes(*final(buf)) == Seq::<u8>::empty(),
            },
    {
        match self.decode(buf) {
            Ok(Some(frame)) => Ok(Some(frame)),
            Ok(None) => {
                buf_truncate(buf, 0);
                Ok(None)
            },
            Err(e) => Err(e),
        }
    }
}

} // verus!
