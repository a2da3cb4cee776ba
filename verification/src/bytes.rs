//! Small verified helpers on byte slices that the parsing modules share.

use vstd::prelude::*;

verus! {

/// True iff the two slices hold the same bytes.
pub fn slice_eq(a: &[u8], b: &[u8]) -> (r: bool)
    ensures
        r <==> a@ == b@,
{
    if a.len() != b.len() {
        assert(a@ != b@) by {
            assert(a@.len() != b@.len());
        }
        return false;
    }
    let n = a.len();
    let mut i: usize = 0;
    while i < n
        invariant
            n == a@.len() == b@.len(),
            0 <= i <= n,
            forall|j: int| 0 <= j < i ==> a@[j] == b@[j],
        decreases n - i,
    {
        if a[i] != b[i] {
            return false;
        }
        i += 1;
    }
    assert(a@ =~= b@);
    true
}

/// True iff `a` ends with the bytes of `suffix`.
pub fn ends_with(a: &[u8], suffix: &[u8]) -> (r: bool)
    ensures
        r <==> spec_ends_with(a@, suffix@),
{
    if suffix.len() > a.len() {
        return false;
    }
    let start = a.len() - suffix.len();
    let n = suffix.len();
    let mut i: usize = 0;
    while i < n
        invariant
            n == suffix@.len() <= a@.len(),
            start == a@.len() - n,
            start + n <= usize::MAX,
            0 <= i <= n,
            forall|j: int| 0 <= j < i ==> a@[start + j] == suffix@[j],
        decreases n - i,
    {
        if a[start + i] != suffix[i] {
            assert(!spec_ends_with(a@, suffix@)) by {
                assert(a@.skip(a@.len() - suffix@.len())[i as int] != suffix@[i as int]);
            }
            return false;
        }
        i += 1;
    }
    assert(a@.skip(a@.len() - suffix@.len()) =~= suffix@);
    true
}

/// `s` ends with the bytes of `suffix`.
pub open spec fn spec_ends_with(s: Seq<u8>, suffix: Seq<u8>) -> bool {
    s.len() >= suffix.len() && s.skip(s.len() - suffix.len()) == suffix
}

/// `s` starts with the bytes of `prefix`.
pub open spec fn spec_starts_with(s: Seq<u8>, prefix: Seq<u8>) -> bool {
    s.len() >= prefix.len() && s.take(prefix.len() as int) == prefix
}

/// True iff `a` starts with the bytes of `prefix`.
pub fn starts_with(a: &[u8], prefix: &[u8]) -> (r: bool)
    ensures
        r <==> spec_starts_with(a@, prefix@),
{
    if prefix.len() > a.len() {
        return false;
    }
    let n = prefix.len();
    let mut i: usize = 0;
    while i < n
        invariant
            n == prefix@.len() <= a@.len(),
            0 <= i <= n,
            forall|j: int| 0 <= j < i ==> a@[j] == prefix@[j],
        decreases n - i,
    {
        if a[i] != prefix[i] {
            assert(!spec_starts_with(a@, prefix@)) by {
                assert(a@.take(prefix@.len() as int)[i as int] != prefix@[i as int]);
            }
            return false;
        }
        i += 1;
    }
    assert(a@.take(prefix@.len() as int) =~= prefix@);
    true
}

/// The pieces of `s` between occurrences of `sep`; the separator belongs
/// to no piece, and a trailing separator opens one last empty piece.
pub open spec fn spec_split(s: Seq<u8>, sep: u8) -> Seq<Seq<u8>>
    decreases s.len(),
{
    if s.len() == 0 {
        seq![Seq::<u8>::empty()]
    } else if s.last() == sep {
        spec_split(s.drop_last(), sep).push(Seq::<u8>::empty())
    } else {
        let r = spec_split(s.drop_last(), sep);
        r.update(r.len() - 1, r.last().push(s.last()))
    }
}

/// Splits `s` on the separator byte.
pub fn split_on(s: &[u8], sep: u8) -> (r: Vec<Vec<u8>>)
    ensures
        r@.len() == spec_split(s@, sep).len(),
        forall|i: int| 0 <= i < r@.len() ==> r@[i]@ == spec_split(s@, sep)[i],
{
    let mut acc: Vec<Vec<u8>> = Vec::new();
    let mut cur: Vec<u8> = Vec::new();
    let n = s.len();
    let mut i: usize = 0;
    while i < n
        invariant
            0 <= i <= n,
            n == s@.len(),
            acc@.len() + 1 == spec_split(s@.take(i as int), sep).len(),
            forall|j: int| 0 <= j < acc@.len() ==> acc@[j]@ == spec_split(s@.take(i as int), sep)[j],
            cur@ == spec_split(s@.take(i as int), sep).last(),
        decreases n - i,
    {
        let ghost pre = spec_split(s@.take(i as int), sep);
        let b = s[i];
        proof {
            assert(s@.take(i + 1).drop_last() =~= s@.take(i as int));
            assert(s@.take(i + 1).last() == s@[i as int]);
        }
        if b == sep {
            assert(spec_split(s@.take(i + 1), sep) == pre.push(Seq::<u8>::empty()));
            acc.push(cur);
            cur = Vec::new();
        } else {
            assert(spec_split(s@.take(i + 1), sep) == pre.update(
                pre.len() - 1,
                pre.last().push(s@[i as int]),
            ));
            cur.push(b);
        }
        i += 1;
    }
    proof {
        assert(s@.take(n as int) =~= s@);
    }
    acc.push(cur);
    acc
}

/// The bytes of `s` before the first occurrence of `stop`, or all of `s`
/// when `stop` does not occur.
pub open spec fn spec_take_until(s: Seq<u8>, stop: u8) -> Seq<u8>
    decreases s.len(),
{
    if s.len() == 0 {
        s
    } else if s[0] == stop {
        Seq::<u8>::empty()
    } else {
        seq![s[0]] + spec_take_until(s.drop_first(), stop)
    }
}

pub proof fn lemma_take_until_is_take(s: Seq<u8>, stop: u8, j: int)
    requires
        0 <= j <= s.len(),
        forall|k: int| 0 <= k < j ==> s[k] != stop,
        j < s.len() ==> s[j] == stop,
    ensures
        spec_take_until(s, stop) == s.take(j),
    decreases j,
{
    if j == 0 {
        if s.len() == 0 {
            assert(s.take(0) =~= s);
        } else {
            assert(spec_take_until(s, stop) =~= s.take(0));
        }
    } else {
        let t = s.drop_first();
        assert(forall|k: int| 0 <= k < j - 1 ==> t[k] != stop);
        lemma_take_until_is_take(t, stop, j - 1);
        assert(seq![s[0]] + t.take(j - 1) =~= s.take(j));
    }
}

/// The index of the first occurrence of `stop` in `s`, or the length of
/// `s` when it does not occur.
pub fn find_byte(s: &[u8], stop: u8) -> (j: usize)
    ensures
        0 <= j <= s@.len(),
        forall|k: int| 0 <= k < j ==> s@[k] != stop,
        j < s@.len() ==> s@[j as int] == stop,
        spec_take_until(s@, stop) == s@.take(j as int),
{
    let n = s.len();
    let mut j: usize = 0;
    while j < n && s[j] != stop
        invariant
            0 <= j <= n,
            n == s@.len(),
            forall|k: int| 0 <= k < j ==> s@[k] != stop,
        decreases n - j,
    {
        j += 1;
    }
    proof {
        lemma_take_until_is_take(s@, stop, j as int);
    }
    j
}

} // verus!
