//! Classifying a module file name by its compression suffix, and deciding
//! how a module image of each kind becomes a plain byte buffer.
//!
//! An uncompressed image is copied verbatim here.  A Zstandard image is
//! handed to the caller's decoder: decoding runs outside the library, so
//! no contract here speaks for it.  The other recognized kinds are not
//! implemented and fail with a named error instead of misreading the
//! bytes.

use vstd::prelude::*;
use vstd::slice::slice_to_vec;
use crate::bytes::{ends_with, spec_ends_with};
use crate::error::PmemError;

verus! {

/// The compression kind of a kernel module file, derived from its name.
#[derive(Clone, Copy, Debug, PartialEq, Eq, Structural)]
pub enum ModuleCompression {
    Zstd,
    Xz,
    Gz,
    No,
}

pub open spec fn suffix_ko() -> Seq<u8> {
    seq![46u8, 107u8, 111u8]
}

pub open spec fn suffix_ko_zst() -> Seq<u8> {
    seq![46u8, 107u8, 111u8, 46u8, 122u8, 115u8, 116u8]
}

pub open spec fn suffix_ko_xz() -> Seq<u8> {
    seq![46u8, 107u8, 111u8, 46u8, 120u8, 122u8]
}

pub open spec fn suffix_ko_gz() -> Seq<u8> {
    seq![46u8, 107u8, 111u8, 46u8, 103u8, 122u8]
}

/// The one kind a module file name maps to, or `None` for an unrecognized
/// suffix.
pub open spec fn spec_classify(name: Seq<u8>) -> Option<ModuleCompression> {
    if spec_ends_with(name, suffix_ko()) {
        Some(ModuleCompression::No)
    } else if spec_ends_with(name, suffix_ko_zst()) {
        Some(ModuleCompression::Zstd)
    } else if spec_ends_with(name, suffix_ko_xz()) {
        Some(ModuleCompression::Xz)
    } else if spec_ends_with(name, suffix_ko_gz()) {
        Some(ModuleCompression::Gz)
    } else {
        None
    }
}

impl ModuleCompression {
    /// Maps a module file name to its compression kind by suffix; a name
    /// with no recognized suffix is rejected.
    pub fn from_name(name: &[u8]) -> (r: Result<ModuleCompression, PmemError>)
        ensures
            match r {
                Ok(kind) => spec_classify(name@) == Some(kind),
                Err(e) => spec_classify(name@) is None && e == PmemError::UnknownCompression,
            },
    {
        let ko: [u8; 3] = [46, 107, 111];
        let ko_zst: [u8; 7] = [46, 107, 111, 46, 122, 115, 116];
        let ko_xz: [u8; 6] = [46, 107, 111, 46, 120, 122];
        let ko_gz: [u8; 6] = [46, 107, 111, 46, 103, 122];
        proof {
            assert(ko@ =~= suffix_ko());
            assert(ko_zst@ =~= suffix_ko_zst());
            assert(ko_xz@ =~= suffix_ko_xz());
            assert(ko_gz@ =~= suffix_ko_gz());
        }
        if ends_with(name, ko.as_slice()) {
            Ok(ModuleCompression::No)
        } else if ends_with(name, ko_zst.as_slice()) {
            Ok(ModuleCompression::Zstd)
        } else if ends_with(name, ko_xz.as_slice()) {
            Ok(ModuleCompression::Xz)
        } else if ends_with(name, ko_gz.as_slice()) {
            Ok(ModuleCompression::Gz)
        } else {
            Err(PmemError::UnknownCompression)
        }
    }
}

/// How an image of one kind becomes plain bytes: it already is, or the
/// caller's Zstandard decoder must run on it.
pub enum DecompressStep {
    /// The image holds the bytes verbatim; here they are, copied.
    Plain(Vec<u8>),
    /// The bytes are a Zstandard frame for the caller's decoder.
    NeedsZstd,
}

/// Decides how a module image of the given kind decompresses.  An
/// uncompressed image is copied verbatim; a Zstandard frame is handed back
/// for the caller's decoder, whose outcome the caller owns; the other
/// recognized kinds are not implemented and fail by name, never falling
/// through to the raw bytes.
pub fn decompress_step(data: &[u8], kind: ModuleCompression) -> (r: Result<
    DecompressStep,
    PmemError,
>)
    ensures
        kind == ModuleCompression::No ==> (r matches Ok(s) && s matches DecompressStep::Plain(v)
            && v@ == data@),
        kind == ModuleCompression::Zstd ==> (r matches Ok(s) && s is NeedsZstd),
        kind == ModuleCompression::Xz || kind == ModuleCompression::Gz ==> (r matches Err(e)
            && e == PmemError::DecompressUnimplemented(kind)),
{
    match kind {
        ModuleCompression::No => Ok(DecompressStep::Plain(slice_to_vec(data))),
        ModuleCompression::Zstd => Ok(DecompressStep::NeedsZstd),
        ModuleCompression::Xz => Err(PmemError::DecompressUnimplemented(ModuleCompression::Xz)),
        ModuleCompression::Gz => Err(PmemError::DecompressUnimplemented(ModuleCompression::Gz)),
    }
}

} // verus!
