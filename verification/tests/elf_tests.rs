use pmem::adjust::{adjust_module, AdjustContext};
use pmem::elf::{find_sh_by_name, Modinfo};
use pmem::error::PmemError;

fn put_u16(b: &mut Vec<u8>, at: usize, v: u16) {
    b[at..at + 2].copy_from_slice(&v.to_le_bytes());
}

fn put_u32(b: &mut Vec<u8>, at: usize, v: u32) {
    b[at..at + 4].copy_from_slice(&v.to_le_bytes());
}

fn put_u64(b: &mut Vec<u8>, at: usize, v: u64) {
    b[at..at + 8].copy_from_slice(&v.to_le_bytes());
}

/// A minimal 64-bit little-endian relocatable object with a section-name
/// string table and, optionally, a `.modinfo` section holding `modinfo`.
fn build_elf(modinfo: Option<&[u8]>) -> Vec<u8> {
    let strtab: &[u8] = b"\0.shstrtab\0.modinfo\0";
    let shnum: u16 = if modinfo.is_some() { 3 } else { 2 };
    let shoff: usize = 64;
    let stroff: usize = shoff + (shnum as usize) * 64;
    let modoff: usize = stroff + strtab.len();

    let mut b = vec![0u8; modoff + modinfo.map_or(0, |m| m.len())];
    b[0] = 0x7f;
    b[1] = b'E';
    b[2] = b'L';
    b[3] = b'F';
    b[4] = 2; // 64-bit
    b[5] = 1; // little-endian
    put_u64(&mut b, 40, shoff as u64);
    put_u16(&mut b, 58, 64); // e_shentsize
    put_u16(&mut b, 60, shnum);
    put_u16(&mut b, 62, 1); // e_shstrndx

    // Section 0 stays all zeros (the null section).
    // Section 1: the section-name string table, named ".shstrtab".
    let sh1 = shoff + 64;
    put_u32(&mut b, sh1, 1);
    put_u64(&mut b, sh1 + 24, stroff as u64);
    put_u64(&mut b, sh1 + 32, strtab.len() as u64);
    b[stroff..stroff + strtab.len()].copy_from_slice(strtab);

    if let Some(m) = modinfo {
        // Section 2: ".modinfo".
        let sh2 = shoff + 128;
        put_u32(&mut b, sh2, 11);
        put_u64(&mut b, sh2 + 24, modoff as u64);
        put_u64(&mut b, sh2 + 32, m.len() as u64);
        b[modoff..modoff + m.len()].copy_from_slice(m);
    }
    b
}

#[test]
fn vermagic_is_read_verbatim() {
    let elf = build_elf(Some(b"author=x\0vermagic=5.15.0 SMP mod_unload\0"));
    let modinfo = Modinfo::build(&elf).unwrap();
    assert_eq!(
        modinfo.get_value(b"vermagic").unwrap(),
        b"5.15.0 SMP mod_unload".to_vec()
    );
    assert_eq!(modinfo.get_value(b"author").unwrap(), b"x".to_vec());
}

#[test]
fn a_missing_key_fails_by_name() {
    let elf = build_elf(Some(b"author=x\0"));
    let modinfo = Modinfo::build(&elf).unwrap();
    assert_eq!(
        modinfo.get_value(b"vermagic"),
        Err(PmemError::ModinfoKeyNotFound)
    );
    // A key is an exact match, not a prefix.
    assert_eq!(
        modinfo.get_value(b"auth"),
        Err(PmemError::ModinfoKeyNotFound)
    );
}

#[test]
fn an_object_without_modinfo_fails_by_name() {
    let elf = build_elf(None);
    assert!(matches!(
        Modinfo::build(&elf),
        Err(PmemError::SectionNotFound)
    ));
}

#[test]
fn a_non_elf_buffer_is_malformed() {
    assert!(matches!(
        Modinfo::build(b"hello, I am no ELF"),
        Err(PmemError::MalformedElf)
    ));
    assert!(matches!(Modinfo::build(b""), Err(PmemError::MalformedElf)));
    // The right magic alone does not make a well-formed object.
    let mut junk = vec![0u8; 64];
    junk[0] = 0x7f;
    junk[1] = b'E';
    junk[2] = b'L';
    junk[3] = b'F';
    junk[4] = 2;
    junk[5] = 1;
    put_u16(&mut junk, 58, 0); // zero e_shentsize
    put_u16(&mut junk, 60, 1);
    assert!(matches!(Modinfo::build(&junk), Err(PmemError::MalformedElf)));
}

#[test]
fn sections_are_found_by_name() {
    let elf = build_elf(Some(b"k=v\0"));
    let (off, size) = find_sh_by_name(&elf, b".modinfo").unwrap();
    assert_eq!(size, 4);
    assert_eq!(&elf[off as usize..(off + size) as usize], b"k=v\0");
    assert!(matches!(
        find_sh_by_name(&elf, b".text"),
        Err(PmemError::SectionNotFound)
    ));
}

#[test]
fn the_adjust_context_carries_the_reference_vermagic() {
    let reference = build_elf(Some(b"vermagic=6.1.0-13-amd64 SMP mod_unload\0"));
    let ctx = AdjustContext::build(&reference).unwrap();
    assert_eq!(ctx.vermagic, b"6.1.0-13-amd64 SMP mod_unload".to_vec());
}

#[test]
fn adjustment_returns_the_target_unmodified() {
    let reference = build_elf(Some(b"vermagic=6.1.0\0"));
    let target: Vec<u8> = vec![0x7f, b'E', b'L', b'F', 9, 9, 9];
    assert_eq!(adjust_module(&target, &reference), Ok(target.clone()));

    // Without a usable reference no adjusted image is produced.
    let bad_reference = build_elf(None);
    assert_eq!(
        adjust_module(&target, &bad_reference),
        Err(PmemError::SectionNotFound)
    );
}
