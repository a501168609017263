//! Per-user ledgers keyed by account (the account's address text) and their totals.
use vstd::prelude::*;

verus! {

/// The amount a ledger records for `user`; an account without an entry holds zero.
pub open spec fn held(m: Map<Seq<char>, i128>, user: Seq<char>) -> int {
    if m.contains_key(user) {
        m[user] as int
    } else {
        0
    }
}

/// The sum of all amounts recorded in a finite ledger.
pub open spec fn total_held(m: Map<Seq<char>, i128>) -> int
    decreases m.dom().len(),
    when m.dom().finite()
{
    if m.dom().len() == 0 {
        0
    } else {
        let k = m.dom().choose();
        m[k] as int + total_held(m.remove(k))
    }
}

/// Taking any one entry out of a finite ledger lowers its total by that entry.
pub proof fn lemma_total_held_remove(m: Map<Seq<char>, i128>, k: Seq<char>)
    requires
        m.dom().finite(),
        m.contains_key(k),
    ensures
        total_held(m) == m[k] as int + total_held(m.remove(k)),
    decreases m.dom().len(),
{
    let c = m.dom().choose();
    assert(m.dom().contains(c));
    if c != k {
        assert(m.remove(c).dom() =~= m.dom().remove(c));
        assert(m.remove(k).dom() =~= m.dom().remove(k));
        lemma_total_held_remove(m.remove(c), k);
        lemma_total_held_remove(m.remove(k), c);
        assert(m.remove(c).remove(k) =~= m.remove(k).remove(c));
    }
}

/// Setting one entry of a finite ledger changes its total by the change of that entry.
pub proof fn lemma_total_held_insert(m: Map<Seq<char>, i128>, k: Seq<char>, v: i128)
    requires
        m.dom().finite(),
    ensures
        m.insert(k, v).dom().finite(),
        total_held(m.insert(k, v)) == total_held(m) - held(m, k) + v,
{
    let m2 = m.insert(k, v);
    assert(m2.dom() =~= m.dom().insert(k));
    lemma_total_held_remove(m2, k);
    if m.contains_key(k) {
        lemma_total_held_remove(m, k);
        assert(m2.remove(k) =~= m.remove(k));
    } else {
        assert(m2.remove(k) =~= m);
    }
}

/// Every entry of the ledger is non-negative.
pub open spec fn all_non_negative(m: Map<Seq<char>, i128>) -> bool {
    forall|u: Seq<char>| #[trigger] m.contains_key(u) ==> m[u] >= 0
}

/// The empty ledger totals zero.
pub proof fn lemma_total_held_empty()
    ensures
        total_held(Map::<Seq<char>, i128>::empty()) == 0,
{
    assert(Map::<Seq<char>, i128>::empty().dom() =~= Set::empty());
}

/// A finite ledger without negative entries totals at least zero.
pub proof fn lemma_total_held_non_negative(m: Map<Seq<char>, i128>)
    requires
        m.dom().finite(),
        all_non_negative(m),
    ensures
        total_held(m) >= 0,
    decreases m.dom().len(),
{
    if m.dom().len() != 0 {
        let c = m.dom().choose();
        assert(m.dom().contains(c));
        assert(m.remove(c).dom() =~= m.dom().remove(c));
        lemma_total_held_non_negative(m.remove(c));
    }
}

/// In a finite ledger without negative entries, each account's amount lies between zero and the total.
pub proof fn lemma_held_within_total(m: Map<Seq<char>, i128>, k: Seq<char>)
    requires
        m.dom().finite(),
        all_non_negative(m),
    ensures
        0 <= held(m, k) <= total_held(m),
{
    lemma_total_held_non_negative(m);
    if m.contains_key(k) {
        lemma_total_held_remove(m, k);
        assert(m.remove(k).dom() =~= m.dom().remove(k));
        lemma_total_held_non_negative(m.remove(k));
    }
}

} // verus!
