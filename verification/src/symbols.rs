//! Resolving a kernel symbol to its address through the exported symbol
//! table, working around pointer hiding.
//!
//! The table is line-oriented text, each line `<hex address> <type> <name>`.
//! A line counts as a match only when its trailing token equals the wanted
//! name exactly, with a space right before it; exactly one match is
//! required, and an address of zero is a failure of its own.
//!
//! Reading the table may require relaxing the kernel's pointer-restriction
//! control.  The session machine below owns that discipline: it hands its
//! driver one privileged step at a time and, on every path on which it
//! changed the control, its last write restores the original value.

use vstd::prelude::*;
use crate::bytes::{find_byte, spec_ends_with, spec_split, spec_take_until, split_on};
use crate::error::PmemError;
use crate::hex::{digits_val, valid_digits};

verus! {

/// The lines of `s`, split on newline bytes; the separator belongs to no
/// line, and a trailing newline opens one last empty line.
pub open spec fn spec_lines(s: Seq<u8>) -> Seq<Seq<u8>> {
    spec_split(s, 10)
}

/// The trailing token of `line` is exactly `name`: the line ends with the
/// name and a space stands right before it.
pub open spec fn line_matches(line: Seq<u8>, name: Seq<u8>) -> bool {
    line.len() > name.len() && spec_ends_with(line, name) && line[line.len() - name.len() - 1]
        == 32
}

/// The matching lines of a table, in order.
pub open spec fn matching_of(lines: Seq<Seq<u8>>, name: Seq<u8>) -> Seq<Seq<u8>>
    decreases lines.len(),
{
    if lines.len() == 0 {
        Seq::<Seq<u8>>::empty()
    } else {
        let rest = matching_of(lines.drop_last(), name);
        if line_matches(lines.last(), name) {
            rest.push(lines.last())
        } else {
            rest
        }
    }
}

/// The leading field of a line: its bytes up to the first space.
pub open spec fn spec_hex_field(line: Seq<u8>) -> Seq<u8> {
    spec_take_until(line, 32)
}

/// The address a line carries: its leading field read as hexadecimal.
pub open spec fn spec_parse_hex_field(line: Seq<u8>) -> Option<u64> {
    let t = spec_hex_field(line);
    if t.len() > 0 && valid_digits(t, 16) && digits_val(t, 16) <= u64::MAX {
        Some(digits_val(t, 16) as u64)
    } else {
        None
    }
}

/// What looking `name` up in `table` yields: exactly one matching line is
/// required and its address must parse and be non-zero.
pub open spec fn spec_resolve(table: Seq<u8>, name: Seq<u8>) -> Result<u64, PmemError> {
    let ms = matching_of(spec_lines(table), name);
    if ms.len() != 1 {
        Err(PmemError::SymbolMatches(ms.len() as usize))
    } else {
        match spec_parse_hex_field(ms[0]) {
            None => Err(PmemError::MalformedSymbolLine),
            Some(a) => if a == 0 {
                Err(PmemError::SymbolAddressZero)
            } else {
                Ok(a)
            },
        }
    }
}

fn split_lines(s: &[u8]) -> (r: Vec<Vec<u8>>)
    ensures
        r@.len() == spec_lines(s@).len(),
        forall|i: int| 0 <= i < r@.len() ==> r@[i]@ == spec_lines(s@)[i],
{
    split_on(s, 10)
}

fn is_match(line: &[u8], name: &[u8]) -> (r: bool)
    ensures
        r == line_matches(line@, name@),
{
    if line.len() <= name.len() {
        return false;
    }
    if line[line.len() - name.len() - 1] != 32 {
        return false;
    }
    crate::bytes::ends_with(line, name)
}

fn parse_hex_field(line: &[u8]) -> (r: Option<u64>)
    ensures
        r == spec_parse_hex_field(line@),
{
    let n = line.len();
    let j = find_byte(line, 32);
    let ghost t = spec_hex_field(line@);
    if j == 0 {
        return None;
    }
    let mut acc: u64 = 0;
    let mut i: usize = 0;
    while i < j
        invariant
            0 <= i <= j <= n,
            n == line@.len(),
            t == line@.take(j as int),
            t == spec_hex_field(line@),
            forall|k: int| 0 <= k < j ==> line@[k] != 32,
            valid_digits(t.take(i as int), 16),
            acc == digits_val(t.take(i as int), 16),
        decreases j - i,
    {
        let ghost done = t.take(i as int);
        let b = line[i];
        assert(t[i as int] == line@[i as int]);
        let d: u64 = if 48 <= b && b <= 57 {
            (b - 48) as u64
        } else if 97 <= b && b <= 102 {
            (b - 87) as u64
        } else if 65 <= b && b <= 70 {
            (b - 55) as u64
        } else {
            assert(crate::hex::spec_digit(t[i as int], 16) is None);
            return None;
        };
        assert(crate::hex::spec_digit(t[i as int], 16) == Some(d));
        proof {
            assert(t.take(i + 1).drop_last() =~= done);
            assert(t.take(i + 1).last() == t[i as int]);
            crate::hex::lemma_digits_val_nonneg(done, 16);
        }
        if acc > (u64::MAX - d) / 16 {
            proof {
                let v: int = acc as int;
                let m: int = u64::MAX - d;
                assert(v * 16 > m) by (nonlinear_arith)
                    requires
                        v > m / 16,
                        m >= 0,
                ;
                assert(digits_val(t.take(i + 1), 16) > u64::MAX);
                crate::hex::lemma_digits_val_prefix_le(t, 16, i + 1);
            }
            return None;
        }
        proof {
            let v: int = acc as int;
            let m: int = u64::MAX - d;
            assert(v * 16 <= m) by (nonlinear_arith)
                requires
                    v <= m / 16,
                    v >= 0,
                    m >= 0,
            ;
        }
        acc = acc * 16 + d;
        i += 1;
    }
    proof {
        assert(t.take(j as int) =~= t);
    }
    Some(acc)
}

/// Scans the symbol table text for `name`.  Succeeds only when exactly one
/// line carries the name as its trailing token; zero or several matches
/// fail naming the count, and a matching line whose address is zero or
/// unreadable fails by name.
pub fn resolve_in_table(table: &[u8], name: &[u8]) -> (r: Result<u64, PmemError>)
    ensures
        r == spec_resolve(table@, name@),
{
    let lines = split_lines(table);
    let ghost ls = spec_lines(table@);
    let n = lines.len();
    let mut count: usize = 0;
    let mut found: usize = 0;
    let mut i: usize = 0;
    while i < n
        invariant
            0 <= i <= n,
            n == lines@.len(),
            n == ls.len(),
            forall|j: int| 0 <= j < n ==> lines@[j]@ == ls[j],
            count == matching_of(ls.take(i as int), name@).len(),
            count <= i,
            count > 0 ==> (found < i && line_matches(ls[found as int], name@) && matching_of(
                ls.take(i as int),
                name@,
            )[0] == ls[found as int]),
        decreases n - i,
    {
        let ghost pre = matching_of(ls.take(i as int), name@);
        proof {
            assert(ls.take(i + 1).drop_last() =~= ls.take(i as int));
            assert(ls.take(i + 1).last() == ls[i as int]);
        }
        if is_match(lines[i].as_slice(), name) {
            assert(matching_of(ls.take(i + 1), name@) == pre.push(ls[i as int]));
            if count == 0 {
                found = i;
            }
            count += 1;
        } else {
            assert(matching_of(ls.take(i + 1), name@) == pre);
        }
        i += 1;
    }
    proof {
        assert(ls.take(n as int) =~= ls);
    }
    if count != 1 {
        return Err(PmemError::SymbolMatches(count));
    }
    match parse_hex_field(lines[found].as_slice()) {
        None => Err(PmemError::MalformedSymbolLine),
        Some(a) => if a == 0 {
            Err(PmemError::SymbolAddressZero)
        } else {
            Ok(a)
        },
    }
}

/// For every table and name: a lookup can succeed only when exactly one
/// line carries the name as its trailing token, and with zero or several
/// such lines it fails naming that count.
pub proof fn lemma_resolve_needs_unique_match(table: Seq<u8>, name: Seq<u8>)
    ensures
        spec_resolve(table, name) is Ok ==> matching_of(spec_lines(table), name).len() == 1,
        matching_of(spec_lines(table), name).len() != 1 ==> spec_resolve(table, name) == Err::<
            u64,
            PmemError,
        >(PmemError::SymbolMatches(matching_of(spec_lines(table), name).len() as usize)),
{
}

/// The ASCII value of the most restrictive pointer-hiding level.
pub const RESTRICT_FULL: u8 = 50;

/// The ASCII value of the intermediate level a full restriction is relaxed
/// to for the duration of one lookup.
pub const RESTRICT_RELAXED: u8 = 49;

/// The next privileged step a lookup asks its driver to perform.
pub enum LookupAction {
    /// Read the single byte of the pointer-restriction control file.
    ReadControl,
    /// Write this byte to the pointer-restriction control file.
    WriteControl(u8),
    /// Read the kernel's exported symbol table.
    ReadTable,
    /// The lookup is over with this outcome.
    Finish(Result<u64, PmemError>),
}

/// What the driver reports back for the step it was asked to perform.
pub enum LookupEvent {
    ControlValue(u8),
    ControlReadFailed,
    WriteDone,
    WriteFailed,
    Table(Vec<u8>),
    TableReadFailed,
}

pub enum LookupPhase {
    /// The control file is being read.
    AwaitControl,
    /// The relaxed level is being written.
    AwaitRelax,
    /// The symbol table is being read.
    AwaitTable,
    /// The original control value is being written back; the lookup's
    /// outcome is already fixed.
    AwaitRestore(Result<u64, PmemError>),
    Finished(Result<u64, PmemError>),
}

/// The value a single-byte file holds after a sequence of writes.
pub open spec fn spec_file_value(original: u8, writes: Seq<u8>) -> u8 {
    if writes.len() == 0 {
        original
    } else {
        writes.last()
    }
}

/// One symbol lookup in flight.  The machine decides every step; its
/// driver only performs the privileged reads and writes and reports what
/// happened.
pub struct SymbolLookup {
    pub name: Vec<u8>,
    pub phase: LookupPhase,
    /// The control value read at the start, once known.
    pub original: Option<u8>,
    /// The relaxed level has been written.
    pub relaxed: bool,
    /// The write restoring the original value itself failed; the one path
    /// on which the control cannot be left as it was found.
    pub restore_failed: bool,
    /// Every value written to the control file so far, in order.
    pub writes: Ghost<Seq<u8>>,
}

impl SymbolLookup {
    pub open spec fn inv(self) -> bool {
        match self.phase {
            LookupPhase::AwaitControl => self.original is None && self.writes@ == Seq::<
                u8,
            >::empty() && !self.relaxed && !self.restore_failed,
            LookupPhase::AwaitRelax => self.original == Some(RESTRICT_FULL) && self.writes@
                == Seq::<u8>::empty() && !self.relaxed && !self.restore_failed,
            LookupPhase::AwaitTable => self.original is Some && !self.restore_failed && (
            if self.relaxed {
                self.original == Some(RESTRICT_FULL) && self.writes@ == seq![RESTRICT_RELAXED]
            } else {
                self.writes@ == Seq::<u8>::empty()
            }),
            LookupPhase::AwaitRestore(_) => self.original == Some(RESTRICT_FULL) && self.relaxed
                && self.writes@ == seq![RESTRICT_RELAXED] && !self.restore_failed,
            LookupPhase::Finished(_) => !self.restore_failed ==> self.control_restored(),
        }
    }

    /// The control file holds the value it held before the lookup.
    pub open spec fn control_restored(self) -> bool {
        match self.original {
            Some(o) => spec_file_value(o, self.writes@) == o,
            None => self.writes@ == Seq::<u8>::empty(),
        }
    }

    /// The events a driver may answer the current phase with.
    pub open spec fn expects(self, ev: LookupEvent) -> bool {
        match self.phase {
            LookupPhase::AwaitControl => ev is ControlValue || ev is ControlReadFailed,
            LookupPhase::AwaitRelax => ev is WriteDone || ev is WriteFailed,
            LookupPhase::AwaitTable => ev is Table || ev is TableReadFailed,
            LookupPhase::AwaitRestore(_) => ev is WriteDone || ev is WriteFailed,
            LookupPhase::Finished(_) => false,
        }
    }

    /// Opens a lookup for `name`; the first step is reading the control
    /// file.
    pub fn start(name: Vec<u8>) -> (r: (SymbolLookup, LookupAction))
        ensures
            r.0.inv(),
            r.0.phase is AwaitControl,
            r.0.name@ == name@,
            r.0.writes@ == Seq::<u8>::empty(),
            r.1 is ReadControl,
    {
        (
            SymbolLookup {
                name,
                phase: LookupPhase::AwaitControl,
                original: None,
                relaxed: false,
                restore_failed: false,
                writes: Ghost(Seq::empty()),
            },
            LookupAction::ReadControl,
        )
    }

    /// Advances the lookup by one reported event and returns the next step.
    ///
    /// A full restriction is relaxed to the intermediate level before the
    /// table is read; whenever the control was changed, the machine's last
    /// write puts the original value back, on the success path and on every
    /// failure path alike.
    pub fn step(self, ev: LookupEvent) -> (r: (SymbolLookup, LookupAction))
        requires
            self.inv(),
            self.expects(ev),
        ensures
            r.0.inv(),
            r.0.name@ == self.name@,
            r.0.original is Some || self.original is None,
            // What each phase and event lead to.
            self.phase is AwaitControl ==> (ev matches LookupEvent::ControlValue(v) ==> ((v
                == RESTRICT_FULL ==> (r.0.phase is AwaitRelax && r.1
                == LookupAction::WriteControl(RESTRICT_RELAXED) && r.0.original == Some(
                RESTRICT_FULL,
            ))) && (v != RESTRICT_FULL ==> (r.0.phase is AwaitTable && r.1
                == LookupAction::ReadTable && r.0.original == Some(v) && !r.0.relaxed)))),
            self.phase is AwaitControl && ev is ControlReadFailed ==> (r.0.phase
                == LookupPhase::Finished(Err::<u64, PmemError>(PmemError::ControlReadFailed))
                && r.1 == LookupAction::Finish(
                Err::<u64, PmemError>(PmemError::ControlReadFailed),
            )),
            self.phase is AwaitRelax && ev is WriteDone ==> (r.0.phase is AwaitTable
                && r.0.relaxed && r.1 == LookupAction::ReadTable && r.0.writes@
                == seq![RESTRICT_RELAXED]),
            self.phase is AwaitRelax && ev is WriteFailed ==> (r.0.phase
                == LookupPhase::Finished(Err::<u64, PmemError>(PmemError::ControlWriteFailed))
                && r.1 == LookupAction::Finish(
                Err::<u64, PmemError>(PmemError::ControlWriteFailed),
            )),
            self.phase is AwaitTable ==> (ev matches LookupEvent::Table(bytes) ==> ((self.relaxed
                ==> (r.0.phase == LookupPhase::AwaitRestore(spec_resolve(bytes@, self.name@))
                && r.1 == LookupAction::WriteControl(RESTRICT_FULL))) && (!self.relaxed ==> (
            r.0.phase == LookupPhase::Finished(spec_resolve(bytes@, self.name@)) && r.1
                == LookupAction::Finish(spec_resolve(bytes@, self.name@)))))),
            self.phase is AwaitTable && ev is TableReadFailed && self.relaxed ==> (r.0.phase
                == LookupPhase::AwaitRestore(
                Err::<u64, PmemError>(PmemError::SymbolTableUnreadable),
            ) && r.1 == LookupAction::WriteControl(RESTRICT_FULL)),
            self.phase is AwaitTable && ev is TableReadFailed && !self.relaxed ==> (r.0.phase
                == LookupPhase::Finished(Err::<u64, PmemError>(PmemError::SymbolTableUnreadable))
                && r.1 == LookupAction::Finish(
                Err::<u64, PmemError>(PmemError::SymbolTableUnreadable),
            )),
            self.phase matches LookupPhase::AwaitRestore(res) ==> ((ev is WriteDone ==> (
            r.0.phase == LookupPhase::Finished(res) && r.1 == LookupAction::Finish(res)
                && r.0.control_restored())) && (ev is WriteFailed ==> (r.0.phase
                == LookupPhase::Finished(Err::<u64, PmemError>(PmemError::ControlWriteFailed))
                && r.1 == LookupAction::Finish(
                Err::<u64, PmemError>(PmemError::ControlWriteFailed),
            ) && r.0.restore_failed))),
    {
        let SymbolLookup { name, phase, original, relaxed, restore_failed, writes } = self;
        match phase {
            LookupPhase::AwaitControl => match ev {
                LookupEvent::ControlValue(v) => {
                    if v == RESTRICT_FULL {
                        (
                            SymbolLookup {
                                name,
                                phase: LookupPhase::AwaitRelax,
                                original: Some(v),
                                relaxed: false,
                                restore_failed: false,
                                writes,
                            },
                            LookupAction::WriteControl(RESTRICT_RELAXED),
                        )
                    } else {
                        (
                            SymbolLookup {
                                name,
                                phase: LookupPhase::AwaitTable,
                                original: Some(v),
                                relaxed: false,
                                restore_failed: false,
                                writes,
                            },
                            LookupAction::ReadTable,
                        )
                    }
                },
                _ => {
                    let res: Result<u64, PmemError> = Err(PmemError::ControlReadFailed);
                    (
                        SymbolLookup {
                            name,
                            phase: LookupPhase::Finished(res),
                            original,
                            relaxed,
                            restore_failed,
                            writes,
                        },
                        LookupAction::Finish(res),
                    )
                },
            },
            LookupPhase::AwaitRelax => match ev {
                LookupEvent::WriteDone => (
                    SymbolLookup {
                        name,
                        phase: LookupPhase::AwaitTable,
                        original,
                        relaxed: true,
                        restore_failed: false,
                        writes: Ghost(writes@.push(RESTRICT_RELAXED)),
                    },
                    LookupAction::ReadTable,
                ),
                _ => {
                    let res: Result<u64, PmemError> = Err(PmemError::ControlWriteFailed);
                    (
                        SymbolLookup {
                            name,
                            phase: LookupPhase::Finished(res),
                            original,
                            relaxed,
                            restore_failed,
                            writes,
                        },
                        LookupAction::Finish(res),
                    )
                },
            },
            LookupPhase::AwaitTable => {
                let res: Result<u64, PmemError> = match &ev {
                    LookupEvent::Table(bytes) => resolve_in_table(
                        bytes.as_slice(),
                        name.as_slice(),
                    ),
                    _ => Err(PmemError::SymbolTableUnreadable),
                };
                if relaxed {
                    let orig = match original {
                        Some(o) => o,
                        None => RESTRICT_FULL,
                    };
                    (
                        SymbolLookup {
                            name,
                            phase: LookupPhase::AwaitRestore(res),
                            original,
                            relaxed,
                            restore_failed: false,
                            writes,
                        },
                        LookupAction::WriteControl(orig),
                    )
                } else {
                    (
                        SymbolLookup {
                            name,
                            phase: LookupPhase::Finished(res),
                            original,
                            relaxed,
                            restore_failed,
                            writes,
                        },
                        LookupAction::Finish(res),
                    )
                }
            },
            LookupPhase::AwaitRestore(res) => match ev {
                LookupEvent::WriteDone => (
                    SymbolLookup {
                        name,
                        phase: LookupPhase::Finished(res),
                        original,
                        relaxed,
                        restore_failed: false,
                        writes: Ghost(writes@.push(RESTRICT_FULL)),
                    },
                    LookupAction::Finish(res),
                ),
                _ => {
                    let failed: Result<u64, PmemError> = Err(PmemError::ControlWriteFailed);
                    (
                        SymbolLookup {
                            name,
                            phase: LookupPhase::Finished(failed),
                            original,
                            relaxed,
                            restore_failed: true,
                            writes,
                        },
                        LookupAction::Finish(failed),
                    )
                },
            },
            LookupPhase::Finished(_) => {
                proof {
                    assert(false);
                }
                (
                    SymbolLookup {
                        name,
                        phase,
                        original,
                        relaxed,
                        restore_failed,
                        writes,
                    },
                    LookupAction::ReadControl,
                )
            },
        }
    }
}

/// However a lookup ends, the pointer-restriction control holds its
/// original value again, unless the one write that restores it itself
/// failed.
pub proof fn lemma_lookup_restores_control(m: SymbolLookup)
    requires
        m.inv(),
        m.phase is Finished,
        !m.restore_failed,
    ensures
        m.control_restored(),
{
}

} // verus!
