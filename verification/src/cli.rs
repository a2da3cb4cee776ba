//! The plain shape of a command invocation.  Argument parsing itself is
//! outside glue; the library only decides what a parsed invocation means.

use vstd::prelude::*;
use crate::pte::PteParts;

verus! {

/// Access width selector for physical reads.
#[derive(Clone, Copy, Debug, PartialEq, Eq, Structural)]
pub enum AccessMode {
    Byte,
    Word,
    Dword,
    Qword,
    Buffer,
}

impl AccessMode {
    /// Width in bytes of a scalar access; a buffer read has no fixed width.
    pub open spec fn spec_size(self) -> Option<usize> {
        match self {
            AccessMode::Byte => Some(1usize),
            AccessMode::Word => Some(2usize),
            AccessMode::Dword => Some(4usize),
            AccessMode::Qword => Some(8usize),
            AccessMode::Buffer => None,
        }
    }

    pub fn size(&self) -> (r: Option<usize>)
        ensures
            r == self.spec_size(),
    {
        match self {
            AccessMode::Byte => Some(1),
            AccessMode::Word => Some(2),
            AccessMode::Dword => Some(4),
            AccessMode::Qword => Some(8),
            AccessMode::Buffer => None,
        }
    }
}

/// Arguments of the module-loading path.
pub struct InsmodCli {
    /// Path to the kernel module object file.
    pub kmod_path: Option<String>,
    /// Unload the driver and remove its device file instead of loading.
    pub rm: bool,
    /// Adjust the driver to the running kernel before loading.
    pub adjust: bool,
    /// Path to a module known to load on the running kernel.
    pub valid_driver: Option<String>,
    /// Display debug output.
    pub verbose: bool,
}

pub enum Subcommands {
    Insmod(InsmodCli),
}

/// The stand-alone loader's arguments.
pub struct LoaderCli {
    pub args: InsmodCli,
}

/// One full invocation of the tool.
pub struct Cli {
    pub subcommand: Option<Subcommands>,
    /// Address for physical read operations.
    pub address: Option<u64>,
    /// Virtual address to translate.
    pub virt_address: Option<u64>,
    /// Size of buffer read operations.
    pub size: Option<u64>,
    /// Access mode for read operations.
    pub mode: Option<AccessMode>,
    /// Parts of a PTE template to install; empty queries the current value.
    pub pte_parts: Option<Vec<PteParts>>,
    /// Hex-encoded bytes of a physical write request.
    pub write: Option<String>,
    /// Target process for CR3 queries and translations.
    pub pid: Option<u32>,
    /// Query the CR3 value of the target process.
    pub cr3: bool,
    /// Display debug output.
    pub verbose: bool,
}

} // verus!
