use pmem::cli::{AccessMode, Cli, InsmodCli, Subcommands};
use pmem::error::PmemError;
use pmem::hex::{maybe_hex, render_dec, render_hex};
use pmem::ioctl::IOCtlCmd;
use pmem::pte::PteParts;

fn plain_cli() -> Cli {
    Cli {
        subcommand: None,
        address: None,
        virt_address: None,
        size: None,
        mode: None,
        pte_parts: None,
        write: None,
        pid: None,
        cr3: false,
        verbose: false,
    }
}

#[test]
fn maybe_hex_reads_decimal_and_hex() {
    assert_eq!(maybe_hex(b"1234"), Ok(1234));
    assert_eq!(maybe_hex(b"0"), Ok(0));
    assert_eq!(maybe_hex(b"0x1000"), Ok(0x1000));
    assert_eq!(maybe_hex(b"0XfF"), Ok(255));
    assert_eq!(maybe_hex(b"+10"), Ok(10));
    assert_eq!(maybe_hex(b"0x+a"), Ok(10));
    assert_eq!(maybe_hex(b"18446744073709551615"), Ok(u64::MAX));
    assert_eq!(maybe_hex(b"0xffffffffffffffff"), Ok(u64::MAX));
}

#[test]
fn maybe_hex_rejects_junk_and_overflow() {
    assert_eq!(maybe_hex(b""), Err(PmemError::MalformedNumber));
    assert_eq!(maybe_hex(b"abc"), Err(PmemError::MalformedNumber));
    assert_eq!(maybe_hex(b"0x"), Err(PmemError::MalformedNumber));
    assert_eq!(maybe_hex(b"12a"), Err(PmemError::MalformedNumber));
    assert_eq!(maybe_hex(b"-5"), Err(PmemError::MalformedNumber));
    assert_eq!(maybe_hex(b"18446744073709551616"), Err(PmemError::MalformedNumber));
    assert_eq!(maybe_hex(b"0x10000000000000000"), Err(PmemError::MalformedNumber));
}

#[test]
fn render_helpers_are_exact() {
    assert_eq!(render_hex(0x1000), "0x0000000000001000");
    assert_eq!(render_dec(0), "0");
    assert_eq!(render_dec(42), "42");
    assert_eq!(render_dec(18446744073709551615), "18446744073709551615");
}

#[test]
fn access_mode_sizes() {
    assert_eq!(AccessMode::Byte.size(), Some(1));
    assert_eq!(AccessMode::Word.size(), Some(2));
    assert_eq!(AccessMode::Dword.size(), Some(4));
    assert_eq!(AccessMode::Qword.size(), Some(8));
    assert_eq!(AccessMode::Buffer.size(), None);
}

#[test]
fn from_cli_selects_cr3_first() {
    let mut cli = plain_cli();
    cli.cr3 = true;
    cli.pid = Some(7);
    cli.virt_address = Some(0x1000);
    assert!(matches!(IOCtlCmd::from_cli(&cli), Ok(IOCtlCmd::Cr3(Some(7)))));
}

#[test]
fn from_cli_selects_translation() {
    let mut cli = plain_cli();
    cli.virt_address = Some(0xffff_8000_0000_0000);
    cli.pid = Some(1);
    assert!(matches!(
        IOCtlCmd::from_cli(&cli),
        Ok(IOCtlCmd::VtoP(0xffff_8000_0000_0000, Some(1)))
    ));
}

#[test]
fn from_cli_selects_physical_read() {
    let mut cli = plain_cli();
    cli.address = Some(0x1000);
    cli.mode = Some(AccessMode::Qword);
    cli.size = None;
    assert!(matches!(
        IOCtlCmd::from_cli(&cli),
        Ok(IOCtlCmd::ReadPhys(0x1000, AccessMode::Qword, None))
    ));
}

#[test]
fn from_cli_rejects_address_without_mode() {
    let mut cli = plain_cli();
    cli.address = Some(0x1000);
    assert!(matches!(
        IOCtlCmd::from_cli(&cli),
        Err(PmemError::MissingAccessMode)
    ));
}

#[test]
fn from_cli_selects_cache_control() {
    let mut cli = plain_cli();
    cli.pte_parts = Some(vec![PteParts::P, PteParts::Rw]);
    match IOCtlCmd::from_cli(&cli) {
        Ok(IOCtlCmd::CacheControl(parts)) => {
            assert_eq!(parts, vec![PteParts::P, PteParts::Rw]);
        }
        other => panic!("unexpected command: {:?}", other.is_ok()),
    }
}

#[test]
fn from_cli_refuses_writes_by_name() {
    let mut cli = plain_cli();
    cli.address = Some(0x1000);
    cli.mode = Some(AccessMode::Byte);
    cli.write = Some(String::from("41"));
    assert!(matches!(
        IOCtlCmd::from_cli(&cli),
        Err(PmemError::WriteNotImplemented)
    ));
}

#[test]
fn from_cli_rejects_empty_invocation() {
    let cli = plain_cli();
    assert!(matches!(
        IOCtlCmd::from_cli(&cli),
        Err(PmemError::InvalidArguments)
    ));
}

#[test]
fn run_dispatches_to_device_path() {
    let mut cli = plain_cli();
    cli.cr3 = true;
    match pmem::run(&cli) {
        Ok(pmem::Plan::Device(IOCtlCmd::Cr3(None))) => {}
        _ => panic!("expected a CR3 device plan"),
    }
}

#[test]
fn run_dispatches_to_insmod_path() {
    let mut cli = plain_cli();
    cli.subcommand = Some(Subcommands::Insmod(InsmodCli {
        kmod_path: None,
        rm: true,
        adjust: false,
        valid_driver: None,
        verbose: false,
    }));
    match pmem::run(&cli) {
        Ok(pmem::Plan::Insmod(pmem::insmod::InsmodPlan::Unload)) => {}
        _ => panic!("expected an unload plan"),
    }
}
