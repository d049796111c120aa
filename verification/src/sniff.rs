//! Content sniffing of uploaded bytes, done by the `infer` crate.

use vstd::prelude::*;

verus! {

/// Most bytes handed to `infer` at once. The image signatures sit at the
/// start of a file, and `infer` itself reads no more than this when it
/// sniffs a file from a path.
pub const SNIFF_LIMIT: usize = 8192;

/// The MIME type that `infer::get` reports for a buffer, judged by its
/// magic number, or `None` where no known signature matches.
pub uninterp spec fn sniffed_mime(bytes: Seq<u8>) -> Option<Seq<char>>;

/// Calls `infer::get` on the bytes and hands back the MIME type of the
/// matched kind (`Type::mime_type`). Trusted: the result is taken to be
/// `sniffed_mime` of the bytes, a function of the bytes alone (the default
/// matcher table of `infer` is fixed); which signatures it knows is not stated.
/// The buffer is bounded: `infer`'s zstd matcher recurses once per 8-byte
/// skippable frame, so an unbounded buffer could nest deeply enough to
/// overflow the stack. The call is made on 64-bit targets only: several
/// matchers add 32-bit length fields read from the buffer to offsets
/// (`archive.rs` zstd, `doc.rs` Office documents), which overflows a 32-bit
/// `usize` on some inputs.
#[verifier::external_body]
pub(crate) fn sniff_mime(bytes: &[u8]) -> (m: Option<&'static str>)
    requires
        bytes@.len() <= SNIFF_LIMIT,
        usize::BITS == 64,
    ensures
        match m {
            Some(s) => sniffed_mime(bytes@) == Some(s@),
            None => sniffed_mime(bytes@) is None,
        },
{
    infer::get(bytes).map(|kind| kind.mime_type())
}

} // verus!
