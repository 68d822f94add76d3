use vstd::prelude::*;
use crate::error::JobError;

verus! {

/// The MD5 digest of a text, as lower case hex.
pub uninterp spec fn md5_hex_of(s: Seq<char>) -> Seq<char>;

/// Relies on rust-crypto's `Md5` (`Digest::input_str`, then
/// `Digest::result_str`): the hex digest of the text's bytes, which depends
/// on the text alone.
#[verifier::external_body]
fn md5_hex(s: &str) -> (r: String)
    ensures
        r@ == md5_hex_of(s@),
{
    let mut h = crypto::md5::Md5::new();
    crypto::digest::Digest::input_str(&mut h, s);
    crypto::digest::Digest::result_str(&mut h)
}

/// The MD5 digest of `text`, as lower case hex.
pub fn content_digest(text: &str) -> (r: String)
    ensures
        r@ == md5_hex_of(text@),
{
    md5_hex(text)
}

/// Whether a file must be written, given whether it exists and the digests
/// of the source's and of the existing file's contents: unless it exists
/// with the same digest.
pub fn digests_need_update(dest_exists: bool, source_digest: &String, dest_digest: &String) -> (r: bool)
    ensures
        r == !(dest_exists && source_digest@ == dest_digest@),
{
    !(dest_exists && *source_digest == *dest_digest)
}

/// Whether a file must be written with `source_text`: unless it exists and
/// its contents `dest_text` have the same MD5 digest.
pub fn file_needs_updated(dest_exists: bool, source_text: &str, dest_text: &str) -> (r: bool)
    ensures
        r == !(dest_exists && md5_hex_of(source_text@) == md5_hex_of(dest_text@)),
{
    if !dest_exists {
        return true;
    }
    let s = content_digest(source_text);
    let d = content_digest(dest_text);
    digests_need_update(dest_exists, &s, &d)
}

#[verifier::external_type_specification]
#[verifier::external_body]
pub struct ExPathBuf(std::path::PathBuf);

/// Relies on `Path::to_str`: the path's text where it is valid unicode.
#[verifier::external_body]
fn path_text(p: &std::path::PathBuf) -> (r: Option<String>)
{
    p.to_str().map(String::from)
}

/// The path's text, or `InvalidPath` where it is not valid unicode.
pub fn path_to_string(p: &std::path::PathBuf) -> (r: Result<String, JobError>)
    ensures
        r is Err ==> r->Err_0 == JobError::InvalidPath,
{
    match path_text(p) {
        Some(s) => Ok(s),
        None => Err(JobError::InvalidPath),
    }
}

} // verus!
