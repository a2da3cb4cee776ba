//! The device protocol: fixed-layout request/response records for the four
//! operations, and the decisions around one ioctl transaction each.
//!
//! The records are a binary contract with the loaded module: field order and
//! width must match the kernel side exactly.  The caller performing the
//! transaction copies these fields into its transfer buffer verbatim; the
//! read buffer pointer of the data-transfer operation lives with that caller,
//! since only it owns the memory the kernel writes into.

use vstd::prelude::*;
use vstd::bytes::{spec_u64_to_le_bytes, u64_to_le_bytes};
use crate::cli::{AccessMode, Cli};
use crate::error::PmemError;
use crate::pte::{spec_encode, Pte, PteParts};

verus! {

/// The ioctl magic byte shared by all operations.
pub const IOCTL_MAGIC: u8 = 97;

/// Command byte of the physical data-transfer operation.
pub const IOCTL_CMD_DATA_TRANSFER: u8 = 97;

/// Command byte of the virtual-to-physical translation operation.
pub const IOCTL_CMD_VTOP: u8 = 98;

/// Command byte of the CR3 query operation.
pub const IOCTL_CMD_CR3: u8 = 99;

/// Command byte of the cache-control operation.
pub const IOCTL_CMD_CACHE_CONTROL: u8 = 100;

/// Access-type code of a byte-wide read.
pub const ACCESS_CODE_BYTE: u8 = 1;

/// Access-type code of a word-wide read.
pub const ACCESS_CODE_WORD: u8 = 2;

/// Access-type code of a dword-wide read.
pub const ACCESS_CODE_DWORD: u8 = 3;

/// Access-type code of a qword-wide read.
pub const ACCESS_CODE_QWORD: u8 = 4;

/// Access-type code of a buffer read.
pub const ACCESS_CODE_BUFFER: u8 = 5;

/// Cache-control operation selector: query the installed template.
pub const CACHE_CTRL_GET: u8 = 0;

/// Cache-control operation selector: install a template.
pub const CACHE_CTRL_SET: u8 = 1;

pub open spec fn spec_access_code(mode: AccessMode) -> u8 {
    match mode {
        AccessMode::Byte => ACCESS_CODE_BYTE,
        AccessMode::Word => ACCESS_CODE_WORD,
        AccessMode::Dword => ACCESS_CODE_DWORD,
        AccessMode::Qword => ACCESS_CODE_QWORD,
        AccessMode::Buffer => ACCESS_CODE_BUFFER,
    }
}

/// The wire code of an access mode.
pub fn access_code(mode: AccessMode) -> (r: u8)
    ensures
        r == spec_access_code(mode),
{
    match mode {
        AccessMode::Byte => ACCESS_CODE_BYTE,
        AccessMode::Word => ACCESS_CODE_WORD,
        AccessMode::Dword => ACCESS_CODE_DWORD,
        AccessMode::Qword => ACCESS_CODE_QWORD,
        AccessMode::Buffer => ACCESS_CODE_BUFFER,
    }
}

/// One device operation, as selected by the argument combination.
pub enum IOCtlCmd {
    VtoP(u64, Option<u32>),
    Cr3(Option<u32>),
    ReadPhys(u64, AccessMode, Option<u64>),
    CacheControl(Vec<PteParts>),
}

/// What `IOCtlCmd::from_cli` owes for an invocation.
pub open spec fn spec_cmd_ok(cli: Cli, r: Result<IOCtlCmd, PmemError>) -> bool {
    &&& cli.write is Some ==> r == Err::<IOCtlCmd, PmemError>(PmemError::WriteNotImplemented)
    &&& cli.write is None && cli.cr3 ==> r == Ok::<IOCtlCmd, PmemError>(IOCtlCmd::Cr3(cli.pid))
    &&& cli.write is None && !cli.cr3 && cli.virt_address is Some ==> r == Ok::<
        IOCtlCmd,
        PmemError,
    >(IOCtlCmd::VtoP(cli.virt_address.unwrap(), cli.pid))
    &&& cli.write is None && !cli.cr3 && cli.virt_address is None && cli.address is Some
        && cli.mode is Some ==> r == Ok::<IOCtlCmd, PmemError>(
        IOCtlCmd::ReadPhys(cli.address.unwrap(), cli.mode.unwrap(), cli.size),
    )
    &&& cli.write is None && !cli.cr3 && cli.virt_address is None && cli.address is Some
        && cli.mode is None ==> r == Err::<IOCtlCmd, PmemError>(PmemError::MissingAccessMode)
    &&& cli.write is None && !cli.cr3 && cli.virt_address is None && cli.address is None
        && cli.pte_parts is Some ==> (r matches Ok(cmd) && cmd matches IOCtlCmd::CacheControl(v)
        && v@ == cli.pte_parts.unwrap()@)
    &&& cli.write is None && !cli.cr3 && cli.virt_address is None && cli.address is None
        && cli.pte_parts is None ==> r == Err::<IOCtlCmd, PmemError>(PmemError::InvalidArguments)
}

impl IOCtlCmd {
    /// Picks the one operation an invocation asks for.  A write request is
    /// defined by the protocol but deliberately refused here; an address
    /// without a mode, or an argument set that selects nothing, is rejected
    /// before any privileged call.
    pub fn from_cli(cli: &Cli) -> (r: Result<IOCtlCmd, PmemError>)
        ensures
            spec_cmd_ok(*cli, r),
    {
        if cli.write.is_some() {
            return Err(PmemError::WriteNotImplemented);
        }
        if cli.cr3 {
            return Ok(IOCtlCmd::Cr3(cli.pid));
        }
        if let Some(virt_address) = cli.virt_address {
            return Ok(IOCtlCmd::VtoP(virt_address, cli.pid));
        }
        if let Some(address) = cli.address {
            return match cli.mode {
                Some(mode) => Ok(IOCtlCmd::ReadPhys(address, mode, cli.size)),
                None => Err(PmemError::MissingAccessMode),
            };
        }
        if let Some(parts) = &cli.pte_parts {
            return Ok(IOCtlCmd::CacheControl(copy_parts(parts)));
        }
        Err(PmemError::InvalidArguments)
    }
}

fn copy_parts(parts: &Vec<PteParts>) -> (r: Vec<PteParts>)
    ensures
        r@ == parts@,
{
    let mut out: Vec<PteParts> = Vec::new();
    let n = parts.len();
    let mut i: usize = 0;
    while i < n
        invariant
            n == parts@.len(),
            0 <= i <= n,
            out@ == parts@.take(i as int),
        decreases n - i,
    {
        out.push(parts[i]);
        proof {
            assert(parts@.take(i + 1) =~= parts@.take(i as int).push(parts@[i as int]));
        }
        i += 1;
    }
    proof {
        assert(parts@.take(n as int) =~= parts@);
    }
    out
}

/// CR3 query record: the kernel reads the target process id and writes the
/// page-table base address.  A target of zero means the calling process.
#[derive(Clone, Copy, Debug, PartialEq, Eq, Structural)]
pub struct Cr3Info {
    pub target_process: u64,
    pub result_cr3: u64,
}

pub open spec fn spec_pid_or_zero(pid: Option<u32>) -> u64 {
    match pid {
        Some(p) => p as u64,
        None => 0u64,
    }
}

/// Builds the CR3 query for a target process.
pub fn cr3_request(pid: Option<u32>) -> (r: Cr3Info)
    ensures
        r.target_process == spec_pid_or_zero(pid),
        r.result_cr3 == 0,
{
    Cr3Info {
        target_process: match pid {
            Some(p) => p as u64,
            None => 0,
        },
        result_cr3: 0,
    }
}

/// The queried page-table base, exactly as the kernel wrote it.
pub fn cr3_result(resp: &Cr3Info) -> (r: u64)
    ensures
        r == resp.result_cr3,
{
    resp.result_cr3
}

/// Translation record: the kernel reads the virtual address and the
/// associated CR3 (zero meaning the current process) and writes the
/// physical address.  The kernel-side PTE pointer of the wire record is
/// supplied as null by the caller of the transaction.
#[derive(Clone, Copy, Debug, PartialEq, Eq, Structural)]
pub struct VtopInfo {
    pub virt_address: u64,
    pub associated_cr3: u64,
    pub phys_address: u64,
}

/// How a translation proceeds: with a target process the CR3 query runs
/// first and its answer is folded into the translation request.
pub enum VtopStep {
    NeedCr3(Cr3Info),
    Ready(VtopInfo),
}

/// Starts a translation: a supplied process id first needs that process's
/// CR3; otherwise the request goes out with CR3 zero, resolved kernel-side
/// as the current process.
pub fn v_to_p_start(virt_address: u64, pid: Option<u32>) -> (r: VtopStep)
    ensures
        pid is Some ==> (r matches VtopStep::NeedCr3(q) && q.target_process == spec_pid_or_zero(
            pid,
        ) && q.result_cr3 == 0),
        pid is None ==> (r matches VtopStep::Ready(t) && t.virt_address == virt_address
            && t.associated_cr3 == 0 && t.phys_address == 0),
{
    match pid {
        Some(p) => VtopStep::NeedCr3(cr3_request(Some(p))),
        None => VtopStep::Ready(
            VtopInfo { virt_address, associated_cr3: 0, phys_address: 0 },
        ),
    }
}

/// Builds the translation request once the target's CR3 is known.
pub fn v_to_p_with_cr3(virt_address: u64, cr3: u64) -> (r: VtopInfo)
    ensures
        r.virt_address == virt_address,
        r.associated_cr3 == cr3,
        r.phys_address == 0,
{
    VtopInfo { virt_address, associated_cr3: cr3, phys_address: 0 }
}

/// The translated physical address, exactly as the kernel wrote it.
pub fn v_to_p_result(resp: &VtopInfo) -> (r: u64)
    ensures
        r == resp.phys_address,
{
    resp.phys_address
}

/// Data-transfer record: the kernel reads the physical address, the access
/// type, the write flag and the buffer capacity, and writes the scalar
/// result or fills the caller's buffer, reporting the filled length in
/// `readbuffer_size`.  The buffer pointer itself lives with the caller of
/// the transaction.
#[derive(Clone, Copy, Debug, PartialEq, Eq, Structural)]
pub struct DataTransfer {
    pub phys_address: u64,
    pub out_value: u64,
    pub readbuffer_size: u64,
    pub access_type: u8,
    pub write_access: u8,
    pub reserved1: u8,
    pub reserved2: u8,
}

/// Builds a physical read request.  The write flag is always clear: the
/// write path is defined by the protocol but not offered.
pub fn read_phys_request(address: u64, mode: AccessMode, size: Option<u64>) -> (r: DataTransfer)
    ensures
        r.phys_address == address,
        r.out_value == 0,
        r.readbuffer_size == (match size {
            Some(s) => s,
            None => 0u64,
        }),
        r.access_type == spec_access_code(mode),
        r.write_access == 0,
        r.reserved1 == 0,
        r.reserved2 == 0,
{
    DataTransfer {
        phys_address: address,
        out_value: 0,
        readbuffer_size: match size {
            Some(s) => s,
            None => 0,
        },
        access_type: access_code(mode),
        write_access: 0,
        reserved1: 0,
        reserved2: 0,
    }
}

/// What a completed read hands back to the caller.
pub enum ReadOutcome {
    /// The scalar result, truncated to the requested width, little-endian.
    Scalar(Vec<u8>),
    /// The number of bytes the kernel reports it wrote into the caller's
    /// buffer; the caller must resize its buffer's logical length to this
    /// count before use.
    Buffer(u64),
}

/// Interprets a completed data transfer: scalar widths truncate the 8-byte
/// output field in host (little-endian) byte order; a buffer read reports
/// the filled length.
pub fn read_phys_result(resp: &DataTransfer, mode: AccessMode) -> (r: ReadOutcome)
    ensures
        mode == AccessMode::Buffer ==> r == ReadOutcome::Buffer(resp.readbuffer_size),
        mode != AccessMode::Buffer ==> (r matches ReadOutcome::Scalar(v) && v@
            == spec_u64_to_le_bytes(resp.out_value).take(
            mode.spec_size().unwrap() as int,
        )),
{
    match mode.size() {
        None => ReadOutcome::Buffer(resp.readbuffer_size),
        Some(width) => {
            let mut bytes = u64_to_le_bytes(resp.out_value);
            bytes.truncate(width);
            ReadOutcome::Scalar(bytes)
        },
    }
}

/// Cache-control record: the kernel reads the operation selector and, for
/// an installation, the template value; a query writes the installed
/// template into the same field.
#[derive(Clone, Copy, Debug, PartialEq, Eq, Structural)]
pub struct CacheControl {
    pub operation: u8,
    pub pte_template: u64,
}

/// Builds a cache-control transaction from the listed template parts: an
/// empty list queries the installed template, a non-empty list folds the
/// parts into a value and installs it.  Multi-bit fields are refused.
pub fn cache_control_request(parts: &Vec<PteParts>) -> (r: Result<CacheControl, PmemError>)
    ensures
        parts@.len() == 0 ==> r == Ok::<CacheControl, PmemError>(
            CacheControl { operation: CACHE_CTRL_GET, pte_template: 0 },
        ),
        parts@.len() > 0 ==> match r {
            Ok(c) => c.operation == CACHE_CTRL_SET && c.pte_template == spec_encode(parts@) && (
            forall|i: int| 0 <= i < parts@.len() ==> parts@[i].is_single_bit()),
            Err(e) => e == PmemError::MultiBitPtePart && (exists|i: int|
                0 <= i < parts@.len() && !parts@[i].is_single_bit()),
        },
{
    if parts.len() == 0 {
        return Ok(CacheControl { operation: CACHE_CTRL_GET, pte_template: 0 });
    }
    let pte = Pte::from_parts(parts)?;
    Ok(CacheControl { operation: CACHE_CTRL_SET, pte_template: pte.value })
}

/// The installed template a cache-control query returned, exactly as the
/// kernel wrote it.
pub fn cache_control_result(resp: &CacheControl) -> (r: u64)
    ensures
        r == resp.pte_template,
{
    resp.pte_template
}

/// How a transaction outcome is reported: a failed ioctl is the raw OS
/// error number, surfaced unmodified — no retries, no reinterpretation.
pub open spec fn spec_ioctl_outcome(result: Result<(), i32>) -> Result<(), PmemError> {
    match result {
        Ok(u) => Ok(u),
        Err(e) => Err(PmemError::Errno(e)),
    }
}

/// Interprets the kernel's answer to one ioctl transaction.
pub fn ioctl_outcome(result: Result<(), i32>) -> (r: Result<(), PmemError>)
    ensures
        r == spec_ioctl_outcome(result),
{
    match result {
        Ok(_) => Ok(()),
        Err(e) => Err(PmemError::Errno(e)),
    }
}

} // verus!
