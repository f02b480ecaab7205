//! Turning the body bytes into text according to the content coding.
use crate::error::TimingError;
use crate::head::bytes_equal;
use vstd::prelude::*;
use vstd::string::*;

verus! {

/// The bytes that gzip decompression yields from `b` before the stream ends
/// or an error stops it.
pub uninterp spec fn gunzip_of(b: Seq<u8>) -> Seq<u8>;

/// The text that raw deflate decompression of `b` yields, or `None` where the
/// stream is corrupt or the text is no UTF-8.
pub uninterp spec fn inflate_text_of(b: Seq<u8>) -> Option<Seq<char>>;

/// The bytes that Brotli decompression of `b` yields, or `None` where the
/// stream is corrupt.
pub uninterp spec fn unbrotli_of(b: Seq<u8>) -> Option<Seq<u8>>;

/// The text of `b` read as UTF-8, each invalid sequence replaced by U+FFFD.
pub uninterp spec fn lossy_text_of(b: Seq<u8>) -> Seq<char>;

/// Relies on `flate2::read::GzDecoder` read to its end: what it yields depends
/// on the bytes alone; a decoding error ends the output.
#[verifier::external_body]
fn gunzip(b: &[u8]) -> (r: Vec<u8>)
    ensures
        r@ == gunzip_of(b@),
{
    let mut out = Vec::new();
    let _ = std::io::Read::read_to_end(&mut flate2::read::GzDecoder::new(b), &mut out);
    out
}

/// Relies on `flate2::read::DeflateDecoder` read to a string: the text, or the
/// error of a corrupt stream or of text that is no UTF-8.
#[verifier::external_body]
fn inflate_text(b: &[u8]) -> (r: Result<String, String>)
    ensures
        r is Ok <==> inflate_text_of(b@) is Some,
        r matches Ok(s) ==> inflate_text_of(b@) == Some(s@),
{
    let mut out = String::new();
    match std::io::Read::read_to_string(&mut flate2::read::DeflateDecoder::new(b), &mut out) {
        Ok(_) => Ok(out),
        Err(e) => Err(e.to_string()),
    }
}

/// Relies on `brotli::Decompressor` (with a 4096-byte buffer) read to its end:
/// the bytes, or the error of a corrupt stream.
#[verifier::external_body]
fn unbrotli(b: &[u8]) -> (r: Result<Vec<u8>, String>)
    ensures
        r is Ok <==> unbrotli_of(b@) is Some,
        r matches Ok(d) ==> unbrotli_of(b@) == Some(d@),
{
    let mut out = Vec::new();
    match std::io::Read::read_to_end(&mut brotli::Decompressor::new(b, 4096), &mut out) {
        Ok(_) => Ok(out),
        Err(e) => Err(e.to_string()),
    }
}

/// Relies on `String::from_utf8_lossy`: the text of the bytes, invalid
/// sequences replaced; the result depends on the bytes alone.
#[verifier::external_body]
fn lossy_text(b: &[u8]) -> (r: String)
    ensures
        r@ == lossy_text_of(b@),
{
    String::from_utf8_lossy(b).into_owned()
}

pub open spec fn gzip_name() -> Seq<u8> {
    seq![103u8, 122u8, 105u8, 112u8]
}

pub open spec fn deflate_name() -> Seq<u8> {
    seq![100u8, 101u8, 102u8, 108u8, 97u8, 116u8, 101u8]
}

pub open spec fn brotli_name() -> Seq<u8> {
    seq![98u8, 114u8]
}

/// The text of a body under the content coding `coding`: decompressed for
/// `gzip`, `deflate` and `br`, read as it is for any other coding. `None`
/// where a `deflate` or `br` body does not decode.
pub open spec fn decoded_body_of(coding: Seq<u8>, body: Seq<u8>) -> Option<Seq<char>> {
    if coding == gzip_name() {
        Some(lossy_text_of(gunzip_of(body)))
    } else if coding == deflate_name() {
        inflate_text_of(body)
    } else if coding == brotli_name() {
        match unbrotli_of(body) {
            Some(d) => Some(lossy_text_of(d)),
            None => None,
        }
    } else {
        Some(lossy_text_of(body))
    }
}

/// Decodes a body under its content coding; a data error where it does not
/// decode.
pub fn decode_body(coding: &Vec<u8>, body: &Vec<u8>) -> (r: Result<String, TimingError>)
    ensures
        r is Ok <==> decoded_body_of(coding@, body@) is Some,
        r matches Ok(s) ==> decoded_body_of(coding@, body@) == Some(s@),
        r matches Err(e) ==> e is Data,
{
    let gzip: Vec<u8> = vec![103u8, 122u8, 105u8, 112u8];
    let deflate: Vec<u8> = vec![100u8, 101u8, 102u8, 108u8, 97u8, 116u8, 101u8];
    let br: Vec<u8> = vec![98u8, 114u8];
    assert(gzip@ =~= gzip_name());
    assert(deflate@ =~= deflate_name());
    assert(br@ =~= brotli_name());
    if bytes_equal(coding, &gzip) {
        Ok(lossy_text(gunzip(body.as_slice()).as_slice()))
    } else if bytes_equal(coding, &deflate) {
        match inflate_text(body.as_slice()) {
            Ok(s) => Ok(s),
            Err(m) => Err(TimingError::Data(m)),
        }
    } else if bytes_equal(coding, &br) {
        match unbrotli(body.as_slice()) {
            Ok(d) => Ok(lossy_text(d.as_slice())),
            Err(m) => Err(TimingError::Data(m)),
        }
    } else {
        Ok(lossy_text(body.as_slice()))
    }
}

/// A body under the `gzip` coding is decompressed before it is read as text;
/// the same bytes under no coding are read as they are.
pub proof fn lemma_coding_dispatch(body: Seq<u8>)
    ensures
        decoded_body_of(gzip_name(), body) == Some(lossy_text_of(gunzip_of(body))),
        decoded_body_of(Seq::empty(), body) == Some(lossy_text_of(body)),
{
    assert(Seq::<u8>::empty() != gzip_name()) by {
        assert(gzip_name().len() == 4);
    }
    assert(Seq::<u8>::empty() != deflate_name()) by {
        assert(deflate_name().len() == 7);
    }
    assert(Seq::<u8>::empty() != brotli_name()) by {
        assert(brotli_name().len() == 2);
    }
}

} // verus!
