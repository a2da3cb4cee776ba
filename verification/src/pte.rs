//! The 64-bit page-table-entry value and its named bit-fields.
//!
//! A PTE is partitioned into fields whose masks do not overlap; together
//! they cover the word but for bit 11, which no documented field names.
//! The cache-control operation only ever installs boolean attributes, so
//! folding a part list into a template value accepts single-bit fields
//! alone.

use vstd::prelude::*;
use vstd::seq_lib::{commutative_foldl, lemma_fold_left_permutation};
use crate::error::PmemError;

verus! {

/// Identifiers for the bit-fields of a page-table entry.
#[derive(Clone, Copy, Debug, PartialEq, Eq, Structural)]
pub enum PteParts {
    Xd,
    Pk,
    Avl1,
    Pfn,
    Avl2,
    G,
    Pat,
    D,
    A,
    Pcd,
    Pwt,
    Us,
    Rw,
    P,
}

impl PteParts {
    /// Bit position of the field's least significant bit.
    pub open spec fn spec_shift(self) -> u64 {
        match self {
            PteParts::Xd => 63,
            PteParts::Pk => 59,
            PteParts::Avl1 => 52,
            PteParts::Pfn => 12,
            PteParts::Avl2 => 9,
            PteParts::G => 8,
            PteParts::Pat => 7,
            PteParts::D => 6,
            PteParts::A => 5,
            PteParts::Pcd => 4,
            PteParts::Pwt => 3,
            PteParts::Us => 2,
            PteParts::Rw => 1,
            PteParts::P => 0,
        }
    }

    pub fn shift(&self) -> (r: u64)
        ensures
            r == self.spec_shift(),
    {
        match self {
            PteParts::Xd => 63,
            PteParts::Pk => 59,
            PteParts::Avl1 => 52,
            PteParts::Pfn => 12,
            PteParts::Avl2 => 9,
            PteParts::G => 8,
            PteParts::Pat => 7,
            PteParts::D => 6,
            PteParts::A => 5,
            PteParts::Pcd => 4,
            PteParts::Pwt => 3,
            PteParts::Us => 2,
            PteParts::Rw => 1,
            PteParts::P => 0,
        }
    }

    /// The field's mask: its width in ones, shifted to its position.
    pub open spec fn spec_mask(self) -> u64 {
        match self {
            PteParts::Xd => 0x8000_0000_0000_0000,
            PteParts::Pk => 0x7800_0000_0000_0000,
            PteParts::Avl1 => 0x07f0_0000_0000_0000,
            PteParts::Pfn => 0x000f_ffff_ffff_f000,
            PteParts::Avl2 => 0x0000_0000_0000_0600,
            PteParts::G => 0x100,
            PteParts::Pat => 0x80,
            PteParts::D => 0x40,
            PteParts::A => 0x20,
            PteParts::Pcd => 0x10,
            PteParts::Pwt => 0x8,
            PteParts::Us => 0x4,
            PteParts::Rw => 0x2,
            PteParts::P => 0x1,
        }
    }

    pub fn mask(&self) -> (r: u64)
        ensures
            r == self.spec_mask(),
    {
        match self {
            PteParts::Xd => 0x8000_0000_0000_0000,
            PteParts::Pk => 0x7800_0000_0000_0000,
            PteParts::Avl1 => 0x07f0_0000_0000_0000,
            PteParts::Pfn => 0x000f_ffff_ffff_f000,
            PteParts::Avl2 => 0x0000_0000_0000_0600,
            PteParts::G => 0x100,
            PteParts::Pat => 0x80,
            PteParts::D => 0x40,
            PteParts::A => 0x20,
            PteParts::Pcd => 0x10,
            PteParts::Pwt => 0x8,
            PteParts::Us => 0x4,
            PteParts::Rw => 0x2,
            PteParts::P => 0x1,
        }
    }

    /// The boolean attributes; the page-frame number and the multi-bit
    /// available ranges are genuine fields but not single bits.
    pub open spec fn is_single_bit(self) -> bool {
        !(self == PteParts::Pk || self == PteParts::Avl1 || self == PteParts::Pfn
            || self == PteParts::Avl2)
    }

    pub fn single_bit(&self) -> (r: bool)
        ensures
            r == self.is_single_bit(),
    {
        match self {
            PteParts::Pk => false,
            PteParts::Avl1 => false,
            PteParts::Pfn => false,
            PteParts::Avl2 => false,
            _ => true,
        }
    }

    /// The field a name denotes.  The named set holds the execute-disable
    /// bit and the multi-bit fields; the remaining boolean attributes are
    /// reached through their builder methods instead.
    pub open spec fn spec_from_name(s: Seq<u8>) -> Option<PteParts> {
        if s == seq![120u8, 100u8] {
            Some(PteParts::Xd)
        } else if s == seq![112u8, 107u8] {
            Some(PteParts::Pk)
        } else if s == seq![97u8, 118u8, 108u8, 49u8] {
            Some(PteParts::Avl1)
        } else if s == seq![112u8, 102u8, 110u8] {
            Some(PteParts::Pfn)
        } else if s == seq![97u8, 118u8, 108u8, 50u8] {
            Some(PteParts::Avl2)
        } else {
            None
        }
    }

    /// Reads a field name, rejecting anything it does not denote.
    pub fn from_name(s: &[u8]) -> (r: Result<PteParts, PmemError>)
        ensures
            match r {
                Ok(p) => Self::spec_from_name(s@) == Some(p),
                Err(e) => Self::spec_from_name(s@) is None && e == PmemError::UnknownPtePart,
            },
    {
        let xd: [u8; 2] = [120, 100];
        let pk: [u8; 2] = [112, 107];
        let avl1: [u8; 4] = [97, 118, 108, 49];
        let pfn: [u8; 3] = [112, 102, 110];
        let avl2: [u8; 4] = [97, 118, 108, 50];
        proof {
            assert(xd@ =~= seq![120u8, 100u8]);
            assert(pk@ =~= seq![112u8, 107u8]);
            assert(avl1@ =~= seq![97u8, 118u8, 108u8, 49u8]);
            assert(pfn@ =~= seq![112u8, 102u8, 110u8]);
            assert(avl2@ =~= seq![97u8, 118u8, 108u8, 50u8]);
        }
        if crate::bytes::slice_eq(s, xd.as_slice()) {
            Ok(PteParts::Xd)
        } else if crate::bytes::slice_eq(s, pk.as_slice()) {
            Ok(PteParts::Pk)
        } else if crate::bytes::slice_eq(s, avl1.as_slice()) {
            Ok(PteParts::Avl1)
        } else if crate::bytes::slice_eq(s, pfn.as_slice()) {
            Ok(PteParts::Pfn)
        } else if crate::bytes::slice_eq(s, avl2.as_slice()) {
            Ok(PteParts::Avl2)
        } else {
            Err(PmemError::UnknownPtePart)
        }
    }
}

/// A page-table-entry template value.
#[derive(Clone, Copy, Debug, PartialEq, Eq, Structural)]
pub struct Pte {
    pub value: u64,
}

/// The value obtained by OR-ing the masks of the listed parts, in order.
pub open spec fn spec_encode(parts: Seq<PteParts>) -> u64
    decreases parts.len(),
{
    if parts.len() == 0 {
        0u64
    } else {
        spec_encode(parts.drop_last()) | parts.last().spec_mask()
    }
}

impl Pte {
    pub fn new() -> (r: Pte)
        ensures
            r.value == 0,
    {
        Pte { value: 0 }
    }

    pub fn from_value(value: u64) -> (r: Pte)
        ensures
            r.value == value,
    {
        Pte { value }
    }

    /// Folds an ordered list of parts into one value.  Fails on any part
    /// that is not a single-bit flag; otherwise the result is the OR of the
    /// listed parts' masks.
    pub fn from_parts(parts: &Vec<PteParts>) -> (r: Result<Pte, PmemError>)
        ensures
            match r {
                Ok(p) => (forall|i: int| 0 <= i < parts@.len() ==> parts@[i].is_single_bit())
                    && p.value == spec_encode(parts@),
                Err(e) => e == PmemError::MultiBitPtePart
                    && (exists|i: int| 0 <= i < parts@.len() && !parts@[i].is_single_bit()),
            },
    {
        let mut pte = Pte::new();
        let n = parts.len();
        let mut i: usize = 0;
        while i < n
            invariant
                n == parts@.len(),
                0 <= i <= n,
                forall|j: int| 0 <= j < i ==> parts@[j].is_single_bit(),
                pte.value == spec_encode(parts@.take(i as int)),
            decreases n - i,
        {
            let part = parts[i];
            if !part.single_bit() {
                return Err(PmemError::MultiBitPtePart);
            }
            let next = pte.value | part.mask();
            proof {
                assert(parts@.take(i + 1).drop_last() =~= parts@.take(i as int));
                assert(parts@.take(i + 1).last() == parts@[i as int]);
            }
            pte = Pte { value: next };
            i += 1;
        }
        proof {
            assert(parts@.take(n as int) =~= parts@);
        }
        Ok(pte)
    }

    pub fn xd(self) -> (r: Pte)
        ensures
            r.value == self.value | PteParts::Xd.spec_mask(),
    {
        Pte { value: self.value | PteParts::Xd.mask() }
    }

    /// Installs `value` into the protection-key field; bits outside the
    /// field are discarded by the mask.
    pub fn pk(self, value: u64) -> (r: Pte)
        ensures
            r.value == self.value | ((value << PteParts::Pk.spec_shift()) & PteParts::Pk.spec_mask()),
    {
        Pte { value: self.value | ((value << PteParts::Pk.shift()) & PteParts::Pk.mask()) }
    }

    /// Installs `value` into the page-frame-number field; bits outside the
    /// field are discarded by the mask.
    pub fn pfn(self, value: u64) -> (r: Pte)
        ensures
            r.value == self.value | ((value << PteParts::Pfn.spec_shift())
                & PteParts::Pfn.spec_mask()),
    {
        Pte { value: self.value | ((value << PteParts::Pfn.shift()) & PteParts::Pfn.mask()) }
    }

    pub fn g(self) -> (r: Pte)
        ensures
            r.value == self.value | PteParts::G.spec_mask(),
    {
        Pte { value: self.value | PteParts::G.mask() }
    }

    pub fn pat(self) -> (r: Pte)
        ensures
            r.value == self.value | PteParts::Pat.spec_mask(),
    {
        Pte { value: self.value | PteParts::Pat.mask() }
    }

    pub fn d(self) -> (r: Pte)
        ensures
            r.value == self.value | PteParts::D.spec_mask(),
    {
        Pte { value: self.value | PteParts::D.mask() }
    }

    pub fn a(self) -> (r: Pte)
        ensures
            r.value == self.value | PteParts::A.spec_mask(),
    {
        Pte { value: self.value | PteParts::A.mask() }
    }

    pub fn pcd(self) -> (r: Pte)
        ensures
            r.value == self.value | PteParts::Pcd.spec_mask(),
    {
        Pte { value: self.value | PteParts::Pcd.mask() }
    }

    pub fn pwt(self) -> (r: Pte)
        ensures
            r.value == self.value | PteParts::Pwt.spec_mask(),
    {
        Pte { value: self.value | PteParts::Pwt.mask() }
    }

    pub fn us(self) -> (r: Pte)
        ensures
            r.value == self.value | PteParts::Us.spec_mask(),
    {
        Pte { value: self.value | PteParts::Us.mask() }
    }

    pub fn rw(self) -> (r: Pte)
        ensures
            r.value == self.value | PteParts::Rw.spec_mask(),
    {
        Pte { value: self.value | PteParts::Rw.mask() }
    }

    pub fn p(self) -> (r: Pte)
        ensures
            r.value == self.value | PteParts::P.spec_mask(),
    {
        Pte { value: self.value | PteParts::P.mask() }
    }

    /// The canonical text form of the value: `0x` plus 16 lowercase,
    /// zero-padded hex digits, used both for display and as a wire value.
    pub fn render(&self) -> (r: String)
        ensures
            r@ == crate::hex::spec_hex16(self.value),
    {
        crate::hex::render_hex(self.value)
    }
}

/// The field masks partition the word: two fields with different masks
/// claim disjoint bits, and together the fields cover every bit but bit
/// 11, which no documented field names.
pub proof fn lemma_masks_partition()
    ensures
        forall|a: PteParts, b: PteParts| a.spec_mask() != b.spec_mask() ==> #[trigger] (
        a.spec_mask() & b.spec_mask()) == 0,
        (PteParts::Xd.spec_mask() | PteParts::Pk.spec_mask() | PteParts::Avl1.spec_mask()
            | PteParts::Pfn.spec_mask() | PteParts::Avl2.spec_mask() | PteParts::G.spec_mask()
            | PteParts::Pat.spec_mask() | PteParts::D.spec_mask() | PteParts::A.spec_mask()
            | PteParts::Pcd.spec_mask() | PteParts::Pwt.spec_mask() | PteParts::Us.spec_mask()
            | PteParts::Rw.spec_mask() | PteParts::P.spec_mask()) == 0xffff_ffff_ffff_f7ffu64,
{
    assert forall|a: PteParts, b: PteParts| a.spec_mask() != b.spec_mask() implies #[trigger] (
    a.spec_mask() & b.spec_mask()) == 0 by {
        let x = a.spec_mask();
        let y = b.spec_mask();
        assert(x & y == 0) by (bit_vector)
            requires
                x == 0x8000_0000_0000_0000u64 || x == 0x7800_0000_0000_0000u64 || x == 0x07f0_0000_0000_0000u64 || x == 0x000f_ffff_ffff_f000u64 || x == 0x600u64 || x == 0x100u64 || x == 0x80u64 || x == 0x40u64 || x == 0x20u64 || x == 0x10u64 || x == 0x8u64 || x == 0x4u64 || x == 0x2u64 || x == 0x1u64,
                y == 0x8000_0000_0000_0000u64 || y == 0x7800_0000_0000_0000u64 || y == 0x07f0_0000_0000_0000u64 || y == 0x000f_ffff_ffff_f000u64 || y == 0x600u64 || y == 0x100u64 || y == 0x80u64 || y == 0x40u64 || y == 0x20u64 || y == 0x10u64 || y == 0x8u64 || y == 0x4u64 || y == 0x2u64 || y == 0x1u64,
                x != y,
        ;
    }
    assert((0x8000_0000_0000_0000u64 | 0x7800_0000_0000_0000u64 | 0x07f0_0000_0000_0000u64 | 0x000f_ffff_ffff_f000u64 | 0x600u64 | 0x100u64 | 0x80u64 | 0x40u64 | 0x20u64 | 0x10u64 | 0x8u64 | 0x4u64 | 0x2u64 | 0x1u64) == 0xffff_ffff_ffff_f7ffu64) by (bit_vector);
}

proof fn lemma_encode_is_fold(s: Seq<PteParts>, f: spec_fn(u64, PteParts) -> u64)
    requires
        forall|acc: u64, p: PteParts| #[trigger] f(acc, p) == acc | p.spec_mask(),
    ensures
        spec_encode(s) == s.fold_left(0u64, f),
    decreases s.len(),
{
    if s.len() > 0 {
        lemma_encode_is_fold(s.drop_last(), f);
    }
}

/// Folding parts into a value does not depend on the order of the list:
/// any two lists with the same parts encode to the same value.
pub proof fn lemma_encode_order_independent(s1: Seq<PteParts>, s2: Seq<PteParts>)
    requires
        s1.to_multiset() == s2.to_multiset(),
    ensures
        spec_encode(s1) == spec_encode(s2),
{
    let f = |acc: u64, p: PteParts| acc | p.spec_mask();
    assert(commutative_foldl(f)) by {
        assert forall|x: PteParts, y: PteParts, v: u64| #[trigger] f(f(v, x), y) == f(
            f(v, y),
            x,
        ) by {
            let a = x.spec_mask();
            let b = y.spec_mask();
            assert((v | a) | b == (v | b) | a) by (bit_vector);
        }
    }
    lemma_encode_is_fold(s1, f);
    lemma_encode_is_fold(s2, f);
    lemma_fold_left_permutation(s1, s2, f, 0u64);
}

} // verus!
