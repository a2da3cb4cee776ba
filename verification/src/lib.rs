pub mod adjust;
pub mod bytes;
pub mod cli;
pub mod compress;
pub mod discover;
pub mod elf;
pub mod error;
pub mod hex;
pub mod insmod;
pub mod ioctl;
pub mod pte;
pub mod symbols;

use vstd::prelude::*;
use crate::cli::{Cli, Subcommands};
use crate::error::PmemError;
use crate::insmod::{spec_insmod_plan_ok, InsmodPlan};
use crate::ioctl::{spec_cmd_ok, IOCtlCmd};

verus! {

/// What one invocation of the tool is to do: drive the loading path, or
/// open the device and issue one protocol operation.  The two are mutually
/// exclusive per invocation.
pub enum Plan {
    Insmod(InsmodPlan),
    Device(IOCtlCmd),
}

/// Decides what an invocation does: the insmod subcommand goes to the
/// loading path; everything else selects exactly one device operation.
pub fn run(cli: &Cli) -> (r: Result<Plan, PmemError>)
    ensures
        cli.subcommand matches Some(sub) ==> (sub matches Subcommands::Insmod(ic) ==> ((
        r matches Ok(p) && p matches Plan::Insmod(ip) && spec_insmod_plan_ok(
            ic,
            Ok::<InsmodPlan, PmemError>(ip),
        )) || (r matches Err(e) && spec_insmod_plan_ok(ic, Err::<InsmodPlan, PmemError>(e))))),
        cli.subcommand is None ==> ((r matches Ok(p) && p matches Plan::Device(cmd)
            && spec_cmd_ok(*cli, Ok::<IOCtlCmd, PmemError>(cmd))) || (r matches Err(e)
            && spec_cmd_ok(*cli, Err::<IOCtlCmd, PmemError>(e)))),
{
    if let Some(subcommand) = &cli.subcommand {
        return match subcommand {
            Subcommands::Insmod(insmod_cli) => match crate::insmod::run(insmod_cli) {
                Ok(plan) => Ok(Plan::Insmod(plan)),
                Err(e) => Err(e),
            },
        };
    }
    match IOCtlCmd::from_cli(cli) {
        Ok(cmd) => Ok(Plan::Device(cmd)),
        Err(e) => Err(e),
    }
}

} // verus!
