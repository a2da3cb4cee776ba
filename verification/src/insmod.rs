//! Loading and unloading the driver: the load parameters, the choice of
//! insertion path, the device-node numbers, and the interpretation of what
//! the kernel answered.  The privileged calls themselves are performed by
//! the surrounding program, which hands their raw outcomes back here.

use vstd::prelude::*;
use crate::cli::InsmodCli;
use crate::error::PmemError;
use crate::hex::{render_dec, spec_dec};

verus! {

/// Path of the device special file the loaded driver is reached through.
pub open spec fn spec_dev_path() -> Seq<char> {
    "/dev/linpmem"@
}

/// The device path as a value.
pub fn dev_path() -> (r: &'static str)
    ensures
        r@ == spec_dev_path(),
{
    "/dev/linpmem"
}

/// Name under which the driver registers as a module.
pub open spec fn spec_drv_name() -> Seq<char> {
    "linpmem"@
}

/// The driver name as a value.
pub fn drv_name() -> (r: &'static str)
    ensures
        r@ == spec_drv_name(),
{
    "linpmem"
}

/// The OS error number for a file that already exists.
pub const EEXIST: i32 = 17;

/// The load-time parameter string for a major number: `major=<n>`.
pub open spec fn spec_param(major: u64) -> Seq<char> {
    "major="@ + spec_dec(major)
}

/// The parameter string with the resolved address of the kernel's own
/// symbol-lookup routine appended, when one was resolved.
pub open spec fn spec_param_with_lookup(major: u64, addr: Option<u64>) -> Seq<char> {
    match addr {
        None => spec_param(major),
        Some(a) => spec_param(major) + " kallsyms_lookup_name="@ + crate::hex::spec_hex16(a),
    }
}

/// Builds the load parameters, appending `kallsyms_lookup_name=<address>`
/// when the symbol resolver produced one.
pub fn build_param_with_lookup(major: u32, addr: Option<u64>) -> (r: String)
    ensures
        r@ == spec_param_with_lookup(major as u64, addr),
{
    let mut s = InsmodContext::build_param(major);
    match addr {
        None => s,
        Some(a) => {
            proof {
                reveal_strlit(" kallsyms_lookup_name=");
            }
            s.append(" kallsyms_lookup_name=");
            let hex = crate::hex::render_hex(a);
            s.append(hex.as_str());
            s
        },
    }
}

/// The module image a load uses: the opened file itself on the fast path,
/// an adjusted in-memory buffer on the slow path.  Exactly one
/// representation is used per load.
pub enum ModuleImage {
    FileBacked,
    Buffer(Vec<u8>),
}

/// How the insertion call is made.
#[derive(Clone, Copy, Debug, PartialEq, Eq, Structural)]
pub enum LoadMethod {
    /// Insert straight from the opened file.
    FromFile,
    /// Insert from the adjusted in-memory image.
    FromBuffer,
}

/// Everything a load attempt carries: the image representation, the
/// parameter string, and the chosen major number.
pub struct InsmodContext {
    pub image: ModuleImage,
    pub param: String,
    pub major: u32,
}

impl InsmodContext {
    /// The major number for the device node.  A fixed placeholder: a real
    /// allocation would scan the registered character-device majors for an
    /// unused one.
    pub fn find_unused_major() -> (r: u32)
        ensures
            r == 42,
    {
        42
    }

    /// Builds the load parameter string `major=<n>`.
    pub fn build_param(major: u32) -> (r: String)
        ensures
            r@ == spec_param(major as u64),
    {
        let mut s = String::from_str("major=");
        proof {
            reveal_strlit("major=");
        }
        let num = render_dec(major as u64);
        s.append(num.as_str());
        s
    }

    /// Readies a load: the buffer-backed image when an adjusted copy is
    /// handed in, the file-backed fast path otherwise.
    pub fn build(adjusted: Option<Vec<u8>>) -> (r: InsmodContext)
        ensures
            r.major == 42,
            r.param@ == spec_param(42),
            match adjusted {
                Some(b) => r.image matches ModuleImage::Buffer(v) && v@ == b@,
                None => r.image is FileBacked,
            },
    {
        let major = Self::find_unused_major();
        let param = Self::build_param(major);
        match adjusted {
            Some(b) => InsmodContext { image: ModuleImage::Buffer(b), param, major },
            None => InsmodContext { image: ModuleImage::FileBacked, param, major },
        }
    }

    /// Which insertion call this context takes.
    pub fn load_method(&self) -> (r: LoadMethod)
        ensures
            r == LoadMethod::FromFile <==> self.image is FileBacked,
    {
        match self.image {
            ModuleImage::FileBacked => LoadMethod::FromFile,
            ModuleImage::Buffer(_) => LoadMethod::FromBuffer,
        }
    }
}

/// How an insertion outcome is reported: a kernel refusal is a named
/// failure carrying the raw error number, never silently swallowed.
pub open spec fn spec_load_outcome(result: Result<(), i32>) -> Result<(), PmemError> {
    match result {
        Ok(u) => Ok(u),
        Err(e) => Err(PmemError::ModuleRejected(e)),
    }
}

/// Interprets the kernel's answer to the insertion call.
pub fn load_outcome(result: Result<(), i32>) -> (r: Result<(), PmemError>)
    ensures
        r == spec_load_outcome(result),
{
    match result {
        Ok(_) => Ok(()),
        Err(e) => Err(PmemError::ModuleRejected(e)),
    }
}

/// The access mode of the device node: read-only for owner, group and
/// other.
pub fn mknod_mode() -> (r: u32)
    ensures
        r == 0o444,
{
    0o444
}

/// The combined device number the node is created with: Linux packs the
/// major's low 12 bits at bit 8 and its high 20 bits at bit 32; the minor
/// is zero.
pub open spec fn spec_makedev(major: u64) -> u64 {
    ((major & 0xffff_f000) << 32) | ((major & 0xfff) << 8)
}

pub fn makedev(major: u32) -> (r: u64)
    ensures
        r == spec_makedev(major as u64),
{
    let m = major as u64;
    ((m & 0xffff_f000) << 32) | ((m & 0xfff) << 8)
}

/// How a node-creation outcome is reported: an already existing node is
/// success — creation is idempotent — and every other failure keeps its
/// raw error number.
pub open spec fn spec_mknod_outcome(result: Result<(), i32>) -> Result<(), PmemError> {
    match result {
        Ok(u) => Ok(u),
        Err(e) => if e == EEXIST {
            Ok(())
        } else {
            Err(PmemError::Errno(e))
        },
    }
}

/// Interprets the kernel's answer to creating the device node.
pub fn mknod_outcome(result: Result<(), i32>) -> (r: Result<(), PmemError>)
    ensures
        r == spec_mknod_outcome(result),
{
    match result {
        Ok(_) => Ok(()),
        Err(e) => if e == EEXIST {
            Ok(())
        } else {
            Err(PmemError::Errno(e))
        },
    }
}

/// What the kernel answers a node creation with, given whether the node
/// already exists, and whether it exists afterwards.
pub open spec fn spec_kernel_mknod(exists: bool) -> (Result<(), i32>, bool) {
    if exists {
        (Err(EEXIST), true)
    } else {
        (Ok(()), true)
    }
}

/// Creating the device node is idempotent: whatever held before, doing it
/// twice in sequence succeeds both times and leaves the same state as
/// doing it once.
pub proof fn lemma_mknod_idempotent(exists: bool)
    ensures
        spec_mknod_outcome(spec_kernel_mknod(exists).0) is Ok,
        spec_mknod_outcome(spec_kernel_mknod(spec_kernel_mknod(exists).1).0) is Ok,
        spec_kernel_mknod(spec_kernel_mknod(exists).1).1 == spec_kernel_mknod(exists).1,
{
}

/// The two outcomes of a best-effort unload: removing the module and
/// unlinking the device node are both attempted, and each failure is
/// reported separately with its raw error number.
pub struct UnloadReport {
    pub module_error: Option<i32>,
    pub device_error: Option<i32>,
}

/// Combines the raw outcomes of the two unload steps.
pub fn unload_report(module_result: Result<(), i32>, unlink_result: Result<(), i32>) -> (r:
    UnloadReport)
    ensures
        r.module_error == (match module_result {
            Ok(_) => None::<i32>,
            Err(e) => Some(e),
        }),
        r.device_error == (match unlink_result {
            Ok(_) => None::<i32>,
            Err(e) => Some(e),
        }),
{
    UnloadReport {
        module_error: match module_result {
            Ok(_) => None,
            Err(e) => Some(e),
        },
        device_error: match unlink_result {
            Ok(_) => None,
            Err(e) => Some(e),
        },
    }
}

impl UnloadReport {
    /// The unload as a whole succeeded: neither step failed.
    pub fn ok(&self) -> (r: bool)
        ensures
            r <==> (self.module_error is None && self.device_error is None),
    {
        self.module_error.is_none() && self.device_error.is_none()
    }
}

/// The load attempt the surrounding program is to carry out.
pub struct LoadPlan {
    /// Path of the module object to open.
    pub path: String,
    /// Whether the image is to be adjusted to the running kernel first.
    pub adjust: bool,
    /// A module known to load on the running kernel, overriding discovery.
    pub valid_driver: Option<String>,
    /// The major number for the device node.
    pub major: u32,
    /// The load parameter string.
    pub param: String,
}

/// What one invocation of the loading path is to do.
pub enum InsmodPlan {
    Load(LoadPlan),
    Unload,
}

/// What `run` owes for an invocation.
pub open spec fn spec_insmod_plan_ok(cli: InsmodCli, r: Result<InsmodPlan, PmemError>) -> bool {
    &&& cli.rm ==> (r matches Ok(p) && p is Unload)
    &&& !cli.rm && cli.kmod_path is None ==> r == Err::<InsmodPlan, PmemError>(
        PmemError::MissingKmodPath,
    )
    &&& !cli.rm && cli.kmod_path is Some ==> (r matches Ok(p) && p matches InsmodPlan::Load(lp)
        && lp.path@ == cli.kmod_path.unwrap()@ && lp.adjust == cli.adjust && (match cli.valid_driver {
        Some(v) => lp.valid_driver matches Some(w) && w@ == v@,
        None => lp.valid_driver is None,
    }) && lp.major == 42 && lp.param@ == spec_param(42))
}

/// Decides what the loading path does for an invocation: an unload when
/// removal is asked for, otherwise a load of the named module object —
/// which must be named — with the fixed major and its parameter string.
pub fn run(cli: &InsmodCli) -> (r: Result<InsmodPlan, PmemError>)
    ensures
        spec_insmod_plan_ok(*cli, r),
{
    if cli.rm {
        return Ok(InsmodPlan::Unload);
    }
    let path = match &cli.kmod_path {
        Some(p) => p.clone(),
        None => {
            return Err(PmemError::MissingKmodPath);
        },
    };
    let valid_driver = match &cli.valid_driver {
        Some(v) => Some(v.clone()),
        None => None,
    };
    let major = InsmodContext::find_unused_major();
    let param = InsmodContext::build_param(major);
    Ok(InsmodPlan::Load(LoadPlan { path, adjust: cli.adjust, valid_driver, major, param }))
}

} // verus!
