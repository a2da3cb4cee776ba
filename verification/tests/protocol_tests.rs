use pmem::cli::AccessMode;
use pmem::error::PmemError;
use pmem::hex::render_hex;
use pmem::insmod::{
    load_outcome, makedev, mknod_mode, mknod_outcome, unload_report, InsmodContext, InsmodPlan,
    LoadMethod, ModuleImage, EEXIST,
};
use pmem::ioctl::{
    access_code, cache_control_request, cr3_request, cr3_result, read_phys_request,
    read_phys_result, v_to_p_result, v_to_p_start, v_to_p_with_cr3, DataTransfer, ReadOutcome,
    VtopInfo, VtopStep, ACCESS_CODE_QWORD, CACHE_CTRL_GET, CACHE_CTRL_SET,
};
use pmem::pte::PteParts;

#[test]
fn access_codes_are_distinct_wire_values() {
    assert_eq!(access_code(AccessMode::Byte), 1);
    assert_eq!(access_code(AccessMode::Word), 2);
    assert_eq!(access_code(AccessMode::Dword), 3);
    assert_eq!(access_code(AccessMode::Qword), 4);
    assert_eq!(access_code(AccessMode::Buffer), 5);
}

#[test]
fn qword_read_issues_one_plain_transfer() {
    // End to end on the decision layer: a qword read at 0x1000 builds one
    // data-transfer request with the qword code and the write flag clear,
    // and the scalar answer comes back as its full eight bytes.
    let req = read_phys_request(0x1000, AccessMode::Qword, None);
    assert_eq!(req.phys_address, 0x1000);
    assert_eq!(req.access_type, ACCESS_CODE_QWORD);
    assert_eq!(req.write_access, 0);
    assert_eq!(req.readbuffer_size, 0);
    assert_eq!(req.out_value, 0);

    let resp = DataTransfer {
        out_value: 0x1122_3344_5566_7788,
        ..req
    };
    match read_phys_result(&resp, AccessMode::Qword) {
        ReadOutcome::Scalar(bytes) => {
            assert_eq!(bytes, vec![0x88, 0x77, 0x66, 0x55, 0x44, 0x33, 0x22, 0x11]);
        }
        ReadOutcome::Buffer(_) => panic!("a qword read is scalar"),
    }
}

#[test]
fn scalar_reads_truncate_little_endian() {
    let mut resp = read_phys_request(0, AccessMode::Byte, None);
    resp.out_value = 0x1234;
    match read_phys_result(&resp, AccessMode::Byte) {
        ReadOutcome::Scalar(bytes) => assert_eq!(bytes, vec![0x34]),
        ReadOutcome::Buffer(_) => panic!("a byte read is scalar"),
    }
    match read_phys_result(&resp, AccessMode::Word) {
        ReadOutcome::Scalar(bytes) => assert_eq!(bytes, vec![0x34, 0x12]),
        ReadOutcome::Buffer(_) => panic!("a word read is scalar"),
    }
}

#[test]
fn buffer_reads_report_the_filled_length() {
    let mut req = read_phys_request(0x2000, AccessMode::Buffer, Some(4096));
    assert_eq!(req.readbuffer_size, 4096);
    req.readbuffer_size = 100;
    match read_phys_result(&req, AccessMode::Buffer) {
        ReadOutcome::Buffer(n) => assert_eq!(n, 100),
        ReadOutcome::Scalar(_) => panic!("a buffer read reports a length"),
    }
}

#[test]
fn cr3_request_defaults_to_calling_process() {
    let req = cr3_request(None);
    assert_eq!(req.target_process, 0);
    let req = cr3_request(Some(1234));
    assert_eq!(req.target_process, 1234);
    let resp = pmem::ioctl::Cr3Info {
        target_process: 1234,
        result_cr3: 0x1aa000,
    };
    assert_eq!(cr3_result(&resp), 0x1aa000);
}

#[test]
fn translation_with_pid_queries_cr3_first() {
    match v_to_p_start(0xffff_0000, Some(9)) {
        VtopStep::NeedCr3(q) => assert_eq!(q.target_process, 9),
        VtopStep::Ready(_) => panic!("a target process needs its CR3 first"),
    }
    match v_to_p_start(0xffff_0000, None) {
        VtopStep::Ready(t) => {
            assert_eq!(t.virt_address, 0xffff_0000);
            assert_eq!(t.associated_cr3, 0);
        }
        VtopStep::NeedCr3(_) => panic!("no target process, no CR3 query"),
    }
    let req = v_to_p_with_cr3(0xffff_0000, 0x1aa000);
    assert_eq!(req.associated_cr3, 0x1aa000);
    let resp = VtopInfo {
        phys_address: 0x7000,
        ..req
    };
    assert_eq!(v_to_p_result(&resp), 0x7000);
}

#[test]
fn empty_part_list_queries_the_template() {
    // End to end on the decision layer: cache control with no parts is a
    // "get", and the returned template prints as 16 hex digits.
    let req = cache_control_request(&vec![]).unwrap();
    assert_eq!(req.operation, CACHE_CTRL_GET);
    let template: u64 = 0x8000_0000_0000_0003;
    let printed = render_hex(template);
    assert_eq!(printed, "0x8000000000000003");
    assert_eq!(printed.len(), 18);
}

#[test]
fn part_list_installs_the_folded_template() {
    let req = cache_control_request(&vec![PteParts::P, PteParts::Rw, PteParts::Xd]).unwrap();
    assert_eq!(req.operation, CACHE_CTRL_SET);
    assert_eq!(req.pte_template, 0x8000_0000_0000_0003);
    assert_eq!(
        cache_control_request(&vec![PteParts::Pfn]),
        Err(PmemError::MultiBitPtePart)
    );
}

#[test]
fn kernel_rejection_is_a_named_failure() {
    assert_eq!(load_outcome(Ok(())), Ok(()));
    assert_eq!(load_outcome(Err(8)), Err(PmemError::ModuleRejected(8)));
}

#[test]
fn a_failed_transaction_keeps_its_raw_error_number() {
    assert_eq!(pmem::ioctl::ioctl_outcome(Ok(())), Ok(()));
    assert_eq!(pmem::ioctl::ioctl_outcome(Err(22)), Err(PmemError::Errno(22)));
    assert_eq!(pmem::ioctl::ioctl_outcome(Err(1)), Err(PmemError::Errno(1)));
}

#[test]
fn device_node_creation_is_idempotent() {
    // First creation: the node does not exist, the kernel says Ok.
    assert_eq!(mknod_outcome(Ok(())), Ok(()));
    // Second creation on the same path: the kernel says EEXIST, which is
    // success here and only here.
    assert_eq!(mknod_outcome(Err(EEXIST)), Ok(()));
    // Any other error keeps its raw number.
    assert_eq!(mknod_outcome(Err(13)), Err(PmemError::Errno(13)));
}

#[test]
fn device_node_numbers() {
    assert_eq!(mknod_mode(), 0o444);
    assert_eq!(makedev(42), 42u64 << 8);
    assert_eq!(makedev(0x12345), (0x12000u64 << 32) | (0x345u64 << 8));
}

#[test]
fn unload_surfaces_both_failures_separately() {
    // Unloading while the module is absent: the kernel's "no such device"
    // is surfaced unmodified, and the node unlink is still attempted and
    // reported on its own.
    let report = unload_report(Err(19), Err(2));
    assert_eq!(report.module_error, Some(19));
    assert_eq!(report.device_error, Some(2));
    assert!(!report.ok());

    let report = unload_report(Ok(()), Ok(()));
    assert_eq!(report.module_error, None);
    assert_eq!(report.device_error, None);
    assert!(report.ok());

    let report = unload_report(Ok(()), Err(2));
    assert_eq!(report.module_error, None);
    assert_eq!(report.device_error, Some(2));
    assert!(!report.ok());
}

#[test]
fn load_context_picks_one_image_representation() {
    let ctx = InsmodContext::build(None);
    assert_eq!(ctx.major, 42);
    assert_eq!(ctx.param, "major=42");
    assert_eq!(ctx.load_method(), LoadMethod::FromFile);
    assert!(matches!(ctx.image, ModuleImage::FileBacked));

    let ctx = InsmodContext::build(Some(vec![1, 2, 3]));
    assert_eq!(ctx.load_method(), LoadMethod::FromBuffer);
    match ctx.image {
        ModuleImage::Buffer(b) => assert_eq!(b, vec![1, 2, 3]),
        ModuleImage::FileBacked => panic!("an adjusted image is buffer-backed"),
    }
}

#[test]
fn insmod_run_plans_load_or_unload() {
    let rm = pmem::cli::InsmodCli {
        kmod_path: None,
        rm: true,
        adjust: false,
        valid_driver: None,
        verbose: false,
    };
    assert!(matches!(pmem::insmod::run(&rm), Ok(InsmodPlan::Unload)));

    let missing = pmem::cli::InsmodCli {
        kmod_path: None,
        rm: false,
        adjust: false,
        valid_driver: None,
        verbose: false,
    };
    assert!(matches!(
        pmem::insmod::run(&missing),
        Err(PmemError::MissingKmodPath)
    ));

    let load = pmem::cli::InsmodCli {
        kmod_path: Some(String::from("/tmp/linpmem.ko")),
        rm: false,
        adjust: true,
        valid_driver: None,
        verbose: false,
    };
    match pmem::insmod::run(&load) {
        Ok(InsmodPlan::Load(plan)) => {
            assert_eq!(plan.path, "/tmp/linpmem.ko");
            assert!(plan.adjust);
            assert_eq!(plan.valid_driver, None);
            assert_eq!(plan.major, 42);
            assert_eq!(plan.param, "major=42");
        }
        _ => panic!("expected a load plan"),
    }
}

#[test]
fn device_paths_and_names() {
    assert_eq!(pmem::insmod::dev_path(), "/dev/linpmem");
    assert_eq!(pmem::insmod::drv_name(), "linpmem");
}
