//! The error taxonomy of the library.
//!
//! Kernel rejections keep the raw OS error number so that callers can react
//! to specific codes; every other failure is a named variant of its own.

use vstd::prelude::*;
use crate::compress::ModuleCompression;

verus! {

#[derive(Clone, Copy, Debug, PartialEq, Eq, Structural)]
pub enum PmemError {
    /// No path to the module object was given on the insmod path.
    MissingKmodPath,
    /// The argument combination selects no device operation.
    InvalidArguments,
    /// An address was given without an access mode.
    MissingAccessMode,
    /// Physical writes are defined by the protocol but deliberately not offered.
    WriteNotImplemented,
    /// Only single-bit fields may be folded into a PTE template.
    MultiBitPtePart,
    /// The text names no recognized PTE field.
    UnknownPtePart,
    /// A number was not a valid decimal or `0x`-prefixed hexadecimal `u64`.
    MalformedNumber,
    /// The module file name carries no recognized compression suffix.
    UnknownCompression,
    /// Decompression of this kind is recognized but not implemented.
    DecompressUnimplemented(ModuleCompression),
    /// The buffer is not a well-formed 64-bit little-endian ELF object.
    MalformedElf,
    /// The ELF object holds no section of the requested name.
    SectionNotFound,
    /// The `.modinfo` table holds no entry for the requested key.
    ModinfoKeyNotFound,
    /// The symbol table held this many exact matches instead of exactly one.
    SymbolMatches(usize),
    /// The matching symbol line does not start with a hexadecimal address.
    MalformedSymbolLine,
    /// The symbol resolved to address zero, commonly residual restriction.
    SymbolAddressZero,
    /// The pointer-restriction control file could not be read.
    ControlReadFailed,
    /// The pointer-restriction control file could not be written.
    ControlWriteFailed,
    /// The kernel symbol table could not be read.
    SymbolTableUnreadable,
    /// The module search tree held no file with a recognized module name.
    NoValidModule,
    /// The kernel refused the module image; the raw OS error number.
    ModuleRejected(i32),
    /// A raw OS error from a privileged call, surfaced unmodified.
    Errno(i32),
}

} // verus!
