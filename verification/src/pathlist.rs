//! Composition of the platform's library search path.
//!
//! Before a load, the dependency directory must be present in the
//! platform's separator-joined path list. It is inserted at most once:
//! a list that already carries the entry is returned unchanged, and
//! existing entries are always preserved. The list is handled as bytes;
//! the driver owns the conversion from and to the environment's text.

use vstd::prelude::*;

verus! {

/// Whether `entry` occupies `list[i .. i + entry.len()]` as a whole
/// segment: flanked by the separator or by an end of the list.
pub open spec fn is_entry_at(list: Seq<u8>, entry: Seq<u8>, sep: u8, i: int) -> bool {
    &&& 0 <= i
    &&& i + entry.len() <= list.len()
    &&& list.subrange(i, i + entry.len()) == entry
    &&& (i == 0 || list[i - 1] == sep)
    &&& (i + entry.len() == list.len() || list[i + entry.len()] == sep)
}

/// Whether the separator-joined list carries `entry` as one of its
/// segments.
pub open spec fn list_has_entry(list: Seq<u8>, entry: Seq<u8>, sep: u8) -> bool {
    exists|i: int| is_entry_at(list, entry, sep, i)
}

/// The list with `entry` put in front, separated from the rest.
pub open spec fn prepend_entry(list: Seq<u8>, entry: Seq<u8>, sep: u8) -> Seq<u8> {
    entry + seq![sep] + list
}

/// The list after ensuring `entry` is present: unchanged if it already
/// carries the entry, otherwise the entry is prepended.
pub open spec fn ensure_entry_spec(list: Seq<u8>, entry: Seq<u8>, sep: u8) -> Seq<u8> {
    if list_has_entry(list, entry, sep) {
        list
    } else {
        prepend_entry(list, entry, sep)
    }
}

/// Whether `list[s ..]` starts with the bytes of `entry`.
fn bytes_range_eq(list: &Vec<u8>, s: usize, entry: &Vec<u8>) -> (b: bool)
    requires
        s + entry@.len() <= list@.len(),
    ensures
        b == (list@.subrange(s as int, s as int + entry@.len() as int) == entry@),
{
    let n = list.len();
    let m = entry.len();
    let mut j: usize = 0;
    while j < m
        invariant
            j <= m,
            m == entry@.len(),
            n == list@.len(),
            s + m <= n,
            forall|k: int| 0 <= k < j ==> list@[s + k] == entry@[k],
        decreases m - j,
    {
        if list[s + j] != entry[j] {
            assert(list@.subrange(s as int, s as int + m as int)[j as int] != entry@[j as int]);
            return false;
        }
        j += 1;
    }
    proof {
        assert(list@.subrange(s as int, s as int + m as int) =~= entry@);
    }
    true
}

/// Whether the separator-joined list carries `entry` as a whole segment.
pub fn path_list_contains(list: &Vec<u8>, entry: &Vec<u8>, sep: u8) -> (b: bool)
    ensures
        b == list_has_entry(list@, entry@, sep),
{
    let n = list.len();
    let m = entry.len();
    if m > n {
        assert(forall|i: int| !is_entry_at(list@, entry@, sep, i));
        return false;
    }
    let mut i: usize = 0;
    loop
        invariant
            m <= n,
            n == list@.len(),
            m == entry@.len(),
            i <= n - m,
            forall|j: int| 0 <= j < i ==> !is_entry_at(list@, entry@, sep, j),
        decreases n - m - i,
    {
        let start_ok = i == 0 || list[i - 1] == sep;
        let end_ok = i + m == n || list[i + m] == sep;
        if start_ok && end_ok {
            if bytes_range_eq(list, i, entry) {
                assert(is_entry_at(list@, entry@, sep, i as int));
                return true;
            }
        }
        assert(!is_entry_at(list@, entry@, sep, i as int));
        if i == n - m {
            assert forall|j: int| !is_entry_at(list@, entry@, sep, j) by {
                if is_entry_at(list@, entry@, sep, j) {
                    assert(0 <= j <= n - m);
                }
            }
            return false;
        }
        i += 1;
    }
}

/// Ensures the entry is a segment of the separator-joined list: a list
/// that already carries it comes back unchanged, and otherwise the entry
/// is prepended, with every existing byte of the list preserved behind it.
pub fn ensure_path_entry(list: &Vec<u8>, entry: &Vec<u8>, sep: u8) -> (r: Vec<u8>)
    ensures
        r@ == ensure_entry_spec(list@, entry@, sep),
        list_has_entry(r@, entry@, sep),
{
    if path_list_contains(list, entry, sep) {
        let mut r: Vec<u8> = Vec::new();
        let n = list.len();
        let mut i: usize = 0;
        while i < n
            invariant
                i <= n,
                n == list@.len(),
                r@ =~= list@.take(i as int),
            decreases n - i,
        {
            r.push(list[i]);
            i += 1;
        }
        proof {
            assert(r@ =~= list@);
        }
        r
    } else {
        let mut r: Vec<u8> = Vec::new();
        let m = entry.len();
        let mut i: usize = 0;
        while i < m
            invariant
                i <= m,
                m == entry@.len(),
                r@ =~= entry@.take(i as int),
            decreases m - i,
        {
            r.push(entry[i]);
            i += 1;
        }
        r.push(sep);
        let n = list.len();
        let mut j: usize = 0;
        while j < n
            invariant
                j <= n,
                n == list@.len(),
                m == entry@.len(),
                r@ =~= entry@ + seq![sep] + list@.take(j as int),
            decreases n - j,
        {
            r.push(list[j]);
            j += 1;
        }
        proof {
            assert(r@ =~= prepend_entry(list@, entry@, sep));
            lemma_prepend_has_entry(list@, entry@, sep);
        }
        r
    }
}

/// A freshly prepended entry stands as the first segment of the result.
pub proof fn lemma_prepend_has_entry(list: Seq<u8>, entry: Seq<u8>, sep: u8)
    ensures
        is_entry_at(prepend_entry(list, entry, sep), entry, sep, 0),
        list_has_entry(prepend_entry(list, entry, sep), entry, sep),
{
    let p = prepend_entry(list, entry, sep);
    assert(p.subrange(0, entry.len() as int) =~= entry);
    assert(p[entry.len() as int] == sep);
}

/// Ensuring an entry is idempotent: a second pass changes nothing, so the
/// entry is inserted at most once.
pub proof fn lemma_ensure_entry_idempotent(list: Seq<u8>, entry: Seq<u8>, sep: u8)
    ensures
        list_has_entry(ensure_entry_spec(list, entry, sep), entry, sep),
        ensure_entry_spec(ensure_entry_spec(list, entry, sep), entry, sep) == ensure_entry_spec(
            list,
            entry,
            sep,
        ),
{
    if !list_has_entry(list, entry, sep) {
        lemma_prepend_has_entry(list, entry, sep);
    }
}

/// Ensuring one entry preserves every entry the list already carried.
pub proof fn lemma_ensure_entry_preserves(list: Seq<u8>, entry: Seq<u8>, other: Seq<u8>, sep: u8)
    requires
        list_has_entry(list, other, sep),
    ensures
        list_has_entry(ensure_entry_spec(list, entry, sep), other, sep),
{
    if !list_has_entry(list, entry, sep) {
        let p = prepend_entry(list, entry, sep);
        let i = choose|i: int| is_entry_at(list, other, sep, i);
        let shift = entry.len() + 1;
        assert(p.subrange(i + shift, i + shift + other.len()) =~= list.subrange(
            i,
            i + other.len(),
        ));
        if i == 0 {
            assert(p[i + shift - 1] == sep);
        } else {
            assert(p[i + shift - 1] == list[i - 1]);
        }
        if i + other.len() < list.len() {
            assert(p[i + shift + other.len()] == list[i + other.len()]);
        }
        assert(is_entry_at(p, other, sep, i + shift));
    }
}

} // verus!
