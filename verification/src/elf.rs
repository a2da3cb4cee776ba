//! Reading the `.modinfo` section of a kernel module image: a 64-bit
//! little-endian ELF relocatable object whose section of that name holds a
//! NUL-delimited table of `key=value` strings.

use vstd::prelude::*;
use vstd::bytes::{
    spec_u16_from_le_bytes, spec_u32_from_le_bytes, spec_u64_from_le_bytes, u16_from_le_bytes,
    u32_from_le_bytes, u64_from_le_bytes,
};
use vstd::slice::{slice_subrange, slice_to_vec};
use crate::bytes::{spec_split, spec_take_until, split_on, starts_with};
use crate::error::PmemError;

verus! {

/// The section-header-table file offset, at its fixed place in the ELF
/// header.
pub open spec fn spec_e_shoff(b: Seq<u8>) -> u64 {
    spec_u64_from_le_bytes(b.subrange(40, 48))
}

pub open spec fn spec_e_shentsize(b: Seq<u8>) -> u16 {
    spec_u16_from_le_bytes(b.subrange(58, 60))
}

pub open spec fn spec_e_shnum(b: Seq<u8>) -> u16 {
    spec_u16_from_le_bytes(b.subrange(60, 62))
}

pub open spec fn spec_e_shstrndx(b: Seq<u8>) -> u16 {
    spec_u16_from_le_bytes(b.subrange(62, 64))
}

/// The buffer opens like a 64-bit little-endian ELF object.
pub open spec fn spec_header_ok(b: Seq<u8>) -> bool {
    b.len() >= 64 && b[0] == 0x7f && b[1] == 0x45 && b[2] == 0x4c && b[3] == 0x46 && b[4] == 2
        && b[5] == 1
}

/// File offset of section header `i`.
pub open spec fn spec_sh_base(b: Seq<u8>, i: int) -> int {
    spec_e_shoff(b) + i * (spec_e_shentsize(b) as int)
}

/// The `sh_name` field of section `i`: an offset into the section-name
/// string table.
pub open spec fn spec_sh_name(b: Seq<u8>, i: int) -> u32 {
    spec_u32_from_le_bytes(b.subrange(spec_sh_base(b, i), spec_sh_base(b, i) + 4))
}

/// The `sh_offset` field of section `i`.
pub open spec fn spec_sh_offset(b: Seq<u8>, i: int) -> u64 {
    spec_u64_from_le_bytes(b.subrange(spec_sh_base(b, i) + 24, spec_sh_base(b, i) + 32))
}

/// The `sh_size` field of section `i`.
pub open spec fn spec_sh_size(b: Seq<u8>, i: int) -> u64 {
    spec_u64_from_le_bytes(b.subrange(spec_sh_base(b, i) + 32, spec_sh_base(b, i) + 40))
}

/// The section headers and the section-name string table lie inside the
/// buffer, with entries wide enough to hold the fields read here.
pub open spec fn spec_elf_wf(b: Seq<u8>) -> bool {
    &&& spec_header_ok(b)
    &&& spec_e_shentsize(b) >= 64
    &&& spec_e_shoff(b) + spec_e_shnum(b) * spec_e_shentsize(b) <= b.len()
    &&& spec_e_shstrndx(b) < spec_e_shnum(b)
    &&& spec_sh_offset(b, spec_e_shstrndx(b) as int) + spec_sh_size(
        b,
        spec_e_shstrndx(b) as int,
    ) <= b.len()
}

/// The section-name string table.
pub open spec fn spec_shstrtab(b: Seq<u8>) -> Seq<u8> {
    b.subrange(
        spec_sh_offset(b, spec_e_shstrndx(b) as int) as int,
        spec_sh_offset(b, spec_e_shstrndx(b) as int) + spec_sh_size(b, spec_e_shstrndx(b) as int),
    )
}

/// The NUL-terminated string at `at` in a string table, or `None` when the
/// offset lies outside the table.
pub open spec fn spec_strz(tab: Seq<u8>, at: int) -> Option<Seq<u8>> {
    if 0 <= at < tab.len() {
        Some(spec_take_until(tab.skip(at), 0))
    } else {
        None
    }
}

/// The name of section `i`.
pub open spec fn spec_section_name(b: Seq<u8>, i: int) -> Option<Seq<u8>> {
    spec_strz(spec_shstrtab(b), spec_sh_name(b, i) as int)
}

/// The first section from `i` on whose name is `name`.  A section whose
/// name offset lies outside the string table stops the walk as corrupt.
pub open spec fn spec_find_section_from(b: Seq<u8>, name: Seq<u8>, i: int) -> Result<
    Option<int>,
    (),
>
    decreases spec_e_shnum(b) - i,
{
    if i < 0 || i >= spec_e_shnum(b) {
        Ok(None)
    } else {
        match spec_section_name(b, i) {
            None => Err(()),
            Some(nm) => if nm == name {
                Ok(Some(i))
            } else {
                spec_find_section_from(b, name, i + 1)
            },
        }
    }
}

/// The name of the module-information section.
pub open spec fn spec_modinfo_name() -> Seq<u8> {
    seq![46u8, 109u8, 111u8, 100u8, 105u8, 110u8, 102u8, 111u8]
}

/// The bytes of the `.modinfo` section of `b`, or the named failure: a
/// buffer that is not a well-formed ELF object is malformed, a well-formed
/// one without the section has no section to offer.
pub open spec fn spec_modinfo(b: Seq<u8>) -> Result<Seq<u8>, PmemError> {
    if !spec_elf_wf(b) {
        Err(PmemError::MalformedElf)
    } else {
        match spec_find_section_from(b, spec_modinfo_name(), 0) {
            Err(_) => Err(PmemError::MalformedElf),
            Ok(None) => Err(PmemError::SectionNotFound),
            Ok(Some(i)) => if spec_sh_offset(b, i) + spec_sh_size(b, i) <= b.len() {
                Ok(
                    b.subrange(
                        spec_sh_offset(b, i) as int,
                        spec_sh_offset(b, i) + spec_sh_size(b, i),
                    ),
                )
            } else {
                Err(PmemError::MalformedElf)
            },
        }
    }
}

/// Reads the fixed ELF header fields, or fails on a buffer that does not
/// open like a 64-bit little-endian ELF object.
fn read_header(b: &[u8]) -> (r: Result<(u64, u16, u16, u16), PmemError>)
    ensures
        match r {
            Ok(h) => spec_header_ok(b@) && h.0 == spec_e_shoff(b@) && h.1 == spec_e_shentsize(b@)
                && h.2 == spec_e_shnum(b@) && h.3 == spec_e_shstrndx(b@),
            Err(e) => !spec_header_ok(b@) && e == PmemError::MalformedElf,
        },
{
    if b.len() < 64 {
        return Err(PmemError::MalformedElf);
    }
    if !(b[0] == 0x7f && b[1] == 0x45 && b[2] == 0x4c && b[3] == 0x46 && b[4] == 2 && b[5] == 1) {
        return Err(PmemError::MalformedElf);
    }
    let shoff = u64_from_le_bytes(slice_subrange(b, 40, 48));
    let shentsize = u16_from_le_bytes(slice_subrange(b, 58, 60));
    let shnum = u16_from_le_bytes(slice_subrange(b, 60, 62));
    let shstrndx = u16_from_le_bytes(slice_subrange(b, 62, 64));
    Ok((shoff, shentsize, shnum, shstrndx))
}

/// Reads the name offset, file offset and size of section header `i`.
fn read_section_header(b: &[u8], shoff: u64, shentsize: u16, i: u16) -> (r: (u32, u64, u64))
    requires
        shoff == spec_e_shoff(b@),
        shentsize == spec_e_shentsize(b@),
        shentsize >= 64,
        i < spec_e_shnum(b@),
        spec_e_shoff(b@) + spec_e_shnum(b@) * spec_e_shentsize(b@) <= b@.len(),
    ensures
        r.0 == spec_sh_name(b@, i as int),
        r.1 == spec_sh_offset(b@, i as int),
        r.2 == spec_sh_size(b@, i as int),
{
    let _blen: usize = b.len();
    proof {
        assert(b@.len() <= usize::MAX);
        let bi: int = i as int;
        let num: int = spec_e_shnum(b@) as int;
        let ent: int = spec_e_shentsize(b@) as int;
        assert((bi + 1) * ent <= num * ent) by (nonlinear_arith)
            requires
                bi + 1 <= num,
                ent >= 0,
        ;
        assert(bi * ent + 64 <= (bi + 1) * ent) by (nonlinear_arith)
            requires
                ent >= 64,
                bi >= 0,
        ;
        assert(shoff + bi * ent + 64 <= b@.len());
    }
    let base = shoff + (i as u64) * (shentsize as u64);
    assert(base + 64 <= b@.len());
    let base_us = base as usize;
    assert(base_us == base);
    let name = u32_from_le_bytes(slice_subrange(b, base_us, base_us + 4));
    let offset = u64_from_le_bytes(slice_subrange(b, base_us + 24, base_us + 32));
    let size = u64_from_le_bytes(slice_subrange(b, base_us + 32, base_us + 40));
    (name, offset, size)
}

/// Finds the section named `name` by walking the section header table and
/// the section-name string table, returning its file offset and size.
pub fn find_sh_by_name(b: &[u8], name: &[u8]) -> (r: Result<(u64, u64), PmemError>)
    ensures
        match r {
            Ok(s) => spec_elf_wf(b@) && (spec_find_section_from(b@, name@, 0) matches Ok(oi)
                && oi matches Some(i) && s.0 == spec_sh_offset(b@, i) && s.1 == spec_sh_size(
                b@,
                i,
            )),
            Err(e) => (e == PmemError::MalformedElf && (!spec_elf_wf(b@)
                || spec_find_section_from(b@, name@, 0) is Err)) || (e
                == PmemError::SectionNotFound && spec_elf_wf(b@) && spec_find_section_from(
                b@,
                name@,
                0,
            ) == Ok::<Option<int>, ()>(None)),
        },
{
    let (shoff, shentsize, shnum, shstrndx) = read_header(b)?;
    let len_u64 = b.len() as u64;
    if shentsize < 64 {
        return Err(PmemError::MalformedElf);
    }
    if shoff > len_u64 {
        return Err(PmemError::MalformedElf);
    }
    proof {
        let num: int = shnum as int;
        let ent: int = shentsize as int;
        assert(num * ent < 0x1_0000_0000) by (nonlinear_arith)
            requires
                0 <= num < 0x1_0000,
                0 <= ent < 0x1_0000,
        ;
    }
    if (shnum as u64) * (shentsize as u64) > len_u64 - shoff {
        return Err(PmemError::MalformedElf);
    }
    if !(shstrndx < shnum) {
        return Err(PmemError::MalformedElf);
    }
    let (_, stroff, strsize) = read_section_header(b, shoff, shentsize, shstrndx);
    if stroff > len_u64 || strsize > len_u64 - stroff {
        return Err(PmemError::MalformedElf);
    }
    assert(spec_elf_wf(b@));
    let strtab = slice_subrange(b, stroff as usize, (stroff + strsize) as usize);
    let mut i: u16 = 0;
    while i < shnum
        invariant
            0 <= i <= shnum,
            spec_elf_wf(b@),
            shoff == spec_e_shoff(b@),
            shentsize == spec_e_shentsize(b@),
            shnum == spec_e_shnum(b@),
            shstrndx == spec_e_shstrndx(b@),
            strtab@ == spec_shstrtab(b@),
            spec_find_section_from(b@, name@, 0) == spec_find_section_from(b@, name@, i as int),
        decreases shnum - i,
    {
        let (sh_name, sh_offset, sh_size) = read_section_header(b, shoff, shentsize, i);
        if sh_name as usize >= strtab.len() {
            assert(spec_section_name(b@, i as int) is None);
            return Err(PmemError::MalformedElf);
        }
        let start = sh_name as usize;
        let j = crate::bytes::find_byte(
            slice_subrange(strtab, start, strtab.len()),
            0,
        );
        let sec_name = slice_subrange(strtab, start, start + j);
        proof {
            assert(strtab@.skip(start as int) =~= spec_shstrtab(b@).skip(start as int));
            assert(sec_name@ =~= strtab@.skip(start as int).take(j as int));
            assert(spec_section_name(b@, i as int) == Some(sec_name@));
        }
        if crate::bytes::slice_eq(sec_name, name) {
            return Ok((sh_offset, sh_size));
        }
        i += 1;
    }
    Err(PmemError::SectionNotFound)
}

/// The `.modinfo` table of a module image, held as the section's bytes.
pub struct Modinfo {
    pub data: Vec<u8>,
}

/// An entry carries `key` when it opens with the key and an equals sign;
/// its value is everything after that sign.
pub open spec fn spec_entry_matches(entry: Seq<u8>, key: Seq<u8>) -> bool {
    entry.len() > key.len() && entry.take(key.len() as int) == key && entry[key.len() as int]
        == 61
}

pub open spec fn spec_entry_value(entry: Seq<u8>, key: Seq<u8>) -> Seq<u8> {
    entry.skip(key.len() + 1int)
}

/// The value of the first entry carrying `key`, scanning from entry `i`.
pub open spec fn spec_get_from(entries: Seq<Seq<u8>>, key: Seq<u8>, i: int) -> Option<Seq<u8>>
    decreases entries.len() - i,
{
    if i < 0 || i >= entries.len() {
        None
    } else if spec_entry_matches(entries[i], key) {
        Some(spec_entry_value(entries[i], key))
    } else {
        spec_get_from(entries, key, i + 1)
    }
}

/// The value stored for `key` in a `.modinfo` table.
pub open spec fn spec_get(data: Seq<u8>, key: Seq<u8>) -> Option<Seq<u8>> {
    spec_get_from(spec_split(data, 0), key, 0)
}

impl Modinfo {
    /// Parses a module image and takes hold of its `.modinfo` section.
    pub fn build(raw: &[u8]) -> (r: Result<Modinfo, PmemError>)
        ensures
            match r {
                Ok(m) => spec_modinfo(raw@) == Ok::<Seq<u8>, PmemError>(m.data@),
                Err(e) => spec_modinfo(raw@) == Err::<Seq<u8>, PmemError>(e),
            },
    {
        let modinfo_name: [u8; 8] = [46, 109, 111, 100, 105, 110, 102, 111];
        proof {
            assert(modinfo_name@ =~= spec_modinfo_name());
        }
        let (off, size) = match find_sh_by_name(raw, modinfo_name.as_slice()) {
            Ok(s) => s,
            Err(e) => {
                return Err(e);
            },
        };
        let len_u64 = raw.len() as u64;
        if off > len_u64 || size > len_u64 - off {
            return Err(PmemError::MalformedElf);
        }
        let data = slice_to_vec(slice_subrange(raw, off as usize, (off + size) as usize));
        Ok(Modinfo { data })
    }

    /// The value of the first `key=value` entry for `key`, failing by name
    /// when the table holds none.
    pub fn get_value(&self, key: &[u8]) -> (r: Result<Vec<u8>, PmemError>)
        ensures
            match r {
                Ok(v) => spec_get(self.data@, key@) == Some(v@),
                Err(e) => spec_get(self.data@, key@) is None && e == PmemError::ModinfoKeyNotFound,
            },
    {
        let entries = split_on(self.data.as_slice(), 0);
        let ghost es = spec_split(self.data@, 0);
        let n = entries.len();
        let mut i: usize = 0;
        while i < n
            invariant
                0 <= i <= n,
                n == entries@.len(),
                n == es.len(),
                es == spec_split(self.data@, 0),
                forall|j: int| 0 <= j < n ==> entries@[j]@ == es[j],
                spec_get_from(es, key@, 0) == spec_get_from(es, key@, i as int),
            decreases n - i,
        {
            let entry = entries[i].as_slice();
            if entry.len() > key.len() && starts_with(entry, key) {
                if entry[key.len()] == 61 {
                    assert(spec_entry_matches(es[i as int], key@));
                    let v = slice_to_vec(slice_subrange(entry, key.len() + 1, entry.len()));
                    proof {
                        assert(v@ =~= spec_entry_value(es[i as int], key@));
                        assert(spec_get_from(es, key@, i as int) == Some(
                            spec_entry_value(es[i as int], key@),
                        ));
                    }
                    return Ok(v);
                }
            }
            proof {
                assert(!spec_entry_matches(es[i as int], key@));
            }
            i += 1;
        }
        Err(PmemError::ModinfoKeyNotFound)
    }
}

} // verus!
