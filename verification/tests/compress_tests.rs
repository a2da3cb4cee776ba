use pmem::compress::{decompress_step, DecompressStep, ModuleCompression};
use pmem::discover::{module_search_root, DirEntryInfo, DirEntryKind, ModuleSearch};
use pmem::error::PmemError;

#[test]
fn suffixes_classify_to_the_one_kind() {
    assert_eq!(
        ModuleCompression::from_name(b"linpmem.ko"),
        Ok(ModuleCompression::No)
    );
    assert_eq!(
        ModuleCompression::from_name(b"linpmem.ko.zst"),
        Ok(ModuleCompression::Zstd)
    );
    assert_eq!(
        ModuleCompression::from_name(b"linpmem.ko.xz"),
        Ok(ModuleCompression::Xz)
    );
    assert_eq!(
        ModuleCompression::from_name(b"linpmem.ko.gz"),
        Ok(ModuleCompression::Gz)
    );
}

#[test]
fn unrecognized_suffixes_fail() {
    assert_eq!(
        ModuleCompression::from_name(b"linpmem.txt"),
        Err(PmemError::UnknownCompression)
    );
    assert_eq!(
        ModuleCompression::from_name(b"linpmem.ko.bz2"),
        Err(PmemError::UnknownCompression)
    );
    assert_eq!(
        ModuleCompression::from_name(b"ko"),
        Err(PmemError::UnknownCompression)
    );
    assert_eq!(
        ModuleCompression::from_name(b""),
        Err(PmemError::UnknownCompression)
    );
}

/// What the surrounding program does with a step: the library decides, and
/// a Zstandard frame goes through the decoder here.
fn decompress_bytes(bytes: &[u8], kind: ModuleCompression) -> Result<Vec<u8>, String> {
    match decompress_step(bytes, kind).map_err(|e| format!("{e:?}"))? {
        DecompressStep::Plain(plain) => Ok(plain),
        DecompressStep::NeedsZstd => {
            let mut decoder = ruzstd::decoding::StreamingDecoder::new(bytes)
                .map_err(|e| format!("{e}"))?;
            let mut out = Vec::new();
            std::io::Read::read_to_end(&mut decoder, &mut out).map_err(|e| format!("{e}"))?;
            Ok(out)
        }
    }
}

#[test]
fn uncompressed_images_copy_verbatim() {
    let data = b"\x7fELF rest of module".to_vec();
    match decompress_step(&data, ModuleCompression::No) {
        Ok(DecompressStep::Plain(plain)) => assert_eq!(plain, data),
        _ => panic!("an uncompressed image is its own bytes"),
    }
}

#[test]
fn zstd_images_are_handed_to_the_decoder() {
    let data = b"anything".to_vec();
    assert!(matches!(
        decompress_step(&data, ModuleCompression::Zstd),
        Ok(DecompressStep::NeedsZstd)
    ));
}

#[test]
fn zstd_round_trips() {
    let original: Vec<u8> = (0..4096u32).map(|i| (i % 251) as u8).collect();
    let compressed =
        ruzstd::encoding::compress_to_vec(original.as_slice(), ruzstd::encoding::CompressionLevel::Fastest);
    assert_ne!(compressed, original);
    assert_eq!(
        decompress_bytes(&compressed, ModuleCompression::Zstd),
        Ok(original)
    );
}

#[test]
fn zstd_decodes_a_fixed_frame() {
    // A frame with a single raw block holding "hello": magic, frame
    // header (no flags, smallest window), block header (last, raw, 5),
    // then the payload.
    let frame: &[u8] = &[
        0x28, 0xb5, 0x2f, 0xfd, 0x00, 0x00, 0x29, 0x00, 0x00, b'h', b'e', b'l', b'l', b'o',
    ];
    assert_eq!(
        decompress_bytes(frame, ModuleCompression::Zstd),
        Ok(b"hello".to_vec())
    );
}

#[test]
fn garbage_zstd_input_fails() {
    assert!(decompress_bytes(b"not a zstd frame", ModuleCompression::Zstd).is_err());
}

#[test]
fn unimplemented_codecs_fail_by_kind() {
    let data = b"anything".to_vec();
    assert!(matches!(
        decompress_step(&data, ModuleCompression::Xz),
        Err(PmemError::DecompressUnimplemented(ModuleCompression::Xz))
    ));
    assert!(matches!(
        decompress_step(&data, ModuleCompression::Gz),
        Err(PmemError::DecompressUnimplemented(ModuleCompression::Gz))
    ));
}

#[test]
fn search_root_names_the_release_tree() {
    assert_eq!(
        module_search_root(b"6.1.0-13-amd64"),
        b"/usr/lib/modules/6.1.0-13-amd64/".to_vec()
    );
}

fn entry(name: &[u8], path: &[u8], kind: DirEntryKind) -> DirEntryInfo {
    DirEntryInfo {
        name: name.to_vec(),
        path: path.to_vec(),
        kind,
    }
}

#[test]
fn the_walk_descends_skips_links_and_stops_at_the_first_module() {
    let mut search = ModuleSearch::start(b"/usr/lib/modules/6.1.0/".to_vec());
    let dir = search.next_dir().unwrap();
    assert_eq!(dir, b"/usr/lib/modules/6.1.0/".to_vec());

    // A listing with a subdirectory, a symlink, a stray file and a module.
    let entries = vec![
        entry(b"kernel", b"/usr/lib/modules/6.1.0/kernel", DirEntryKind::Dir),
        entry(b"build", b"/usr/lib/modules/6.1.0/build", DirEntryKind::Symlink),
        entry(b"modules.dep", b"/usr/lib/modules/6.1.0/modules.dep", DirEntryKind::File),
        entry(b"nvme.ko.zst", b"/usr/lib/modules/6.1.0/nvme.ko.zst", DirEntryKind::File),
        entry(b"later", b"/usr/lib/modules/6.1.0/later", DirEntryKind::Dir),
    ];
    let found = search.scan(&entries).unwrap();
    assert_eq!(found.0, b"/usr/lib/modules/6.1.0/nvme.ko.zst".to_vec());
    assert_eq!(found.1, ModuleCompression::Zstd);

    // The directory seen before the find was pushed; the one after not.
    let next = search.next_dir().unwrap();
    assert_eq!(next, b"/usr/lib/modules/6.1.0/kernel".to_vec());
    assert!(search.next_dir().is_none());
}

#[test]
fn an_exhausted_walk_reports_nothing() {
    let mut search = ModuleSearch::start(b"/usr/lib/modules/none/".to_vec());
    let _ = search.next_dir().unwrap();
    let entries = vec![
        entry(b"modules.alias", b"/usr/lib/modules/none/modules.alias", DirEntryKind::File),
        entry(b"source", b"/usr/lib/modules/none/source", DirEntryKind::Symlink),
    ];
    assert!(search.scan(&entries).is_none());
    assert!(search.next_dir().is_none());
}
