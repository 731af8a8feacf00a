//! Decompression of NEXRAD Level II files (bzip2 and gzip).

use vstd::prelude::*;
use super::error::{fetch_error_detail, FetchError};
use crate::text::push_str;

verus! {

/// The bytes a bzip2 stream decompresses to, or `None` when it is not a valid stream.
pub uninterp spec fn bzip2_decompressed(data: Seq<u8>) -> Option<Seq<u8>>;

/// The bytes a gzip stream decompresses to, or `None` when it is not a valid stream.
pub uninterp spec fn gzip_decompressed(data: Seq<u8>) -> Option<Seq<u8>>;

#[verifier::external_type_specification]
#[verifier::external_body]
pub struct ExIoError(std::io::Error);

/// `read_to_end` on `bzip2::read::BzDecoder` over `data`: claims it succeeds
/// exactly when the named decompression exists, with those bytes.
#[verifier::external_body]
fn bzip2_read_all(data: &[u8]) -> (r: Result<Vec<u8>, std::io::Error>)
    ensures
        (r is Ok) == (bzip2_decompressed(data@) is Some),
        r is Ok ==> r->Ok_0@ == bzip2_decompressed(data@)->0,
{
    let mut out = Vec::new();
    std::io::Read::read_to_end(&mut bzip2::read::BzDecoder::new(data), &mut out).map(|_| out)
}

/// `read_to_end` on `flate2::read::GzDecoder` over `data`: claims it succeeds
/// exactly when the named decompression exists, with those bytes.
#[verifier::external_body]
fn gzip_read_all(data: &[u8]) -> (r: Result<Vec<u8>, std::io::Error>)
    ensures
        (r is Ok) == (gzip_decompressed(data@) is Some),
        r is Ok ==> r->Ok_0@ == gzip_decompressed(data@)->0,
{
    let mut out = Vec::new();
    std::io::Read::read_to_end(&mut flate2::read::GzDecoder::new(data), &mut out).map(|_| out)
}

/// The `Display` text of an I/O error; nothing is claimed of it.
#[verifier::external_body]
fn io_error_text(e: &std::io::Error) -> String {
    e.to_string()
}

/// An I/O fetch error: `context` followed by the error's text.
fn io_failure(context: &str, e: &std::io::Error) -> (f: FetchError)
    ensures
        f is Io,
        fetch_error_detail(f).len() >= context@.len(),
        fetch_error_detail(f).subrange(0, context@.len() as int) == context@,
{
    let mut msg = String::new();
    push_str(&mut msg, context);
    let text = io_error_text(e);
    push_str(&mut msg, text.as_str());
    proof {
        assert((Seq::<char>::empty() + context@ + text@).subrange(0, context@.len() as int) =~= context@);
    }
    FetchError::Io(msg)
}

/// Decompresses bzip2 data; fails with an `Io` error whose message starts
/// with `bzip2 decompression failed: ` when the data is not a bzip2 stream.
pub fn decompress_bz2(data: &[u8]) -> (r: Result<Vec<u8>, FetchError>)
    ensures
        (r is Ok) == (bzip2_decompressed(data@) is Some),
        r is Ok ==> r->Ok_0@ == bzip2_decompressed(data@)->0,
        r is Err ==> (r->Err_0 is Io && fetch_error_detail(r->Err_0).subrange(0, 28)
            == "bzip2 decompression failed: "@),
{
    match bzip2_read_all(data) {
        Ok(out) => Ok(out),
        Err(e) => {
            let f = io_failure("bzip2 decompression failed: ", &e);
            proof {
                reveal_strlit("bzip2 decompression failed: ");
            }
            Err(f)
        },
    }
}

/// Decompresses gzip data; fails with an `Io` error whose message starts
/// with `gzip decompression failed: ` when the data is not a gzip stream.
pub fn decompress_gzip(data: &[u8]) -> (r: Result<Vec<u8>, FetchError>)
    ensures
        (r is Ok) == (gzip_decompressed(data@) is Some),
        r is Ok ==> r->Ok_0@ == gzip_decompressed(data@)->0,
        r is Err ==> (r->Err_0 is Io && fetch_error_detail(r->Err_0).subrange(0, 27)
            == "gzip decompression failed: "@),
{
    match gzip_read_all(data) {
        Ok(out) => Ok(out),
        Err(e) => {
            let f = io_failure("gzip decompression failed: ", &e);
            proof {
                reveal_strlit("gzip decompression failed: ");
            }
            Err(f)
        },
    }
}

} // verus!
