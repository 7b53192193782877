//! Which records of a snapshot are new relative to what is already stored.
use vstd::prelude::*;
use std::collections::HashSet;
use crate::model::IncidentSummary;

verus! {

broadcast use vstd::std_specs::hash::group_hash_axioms;

/// The identifiers of a sequence of records.
pub open spec fn ids_of(records: Seq<IncidentSummary>) -> Set<i32> {
    Set::new(|id: i32| exists|i: int| 0 <= i < records.len() && records[i].incident_id == id)
}

/// The records of `snapshot` whose identifier is not in `existing`, in the
/// snapshot's order.
pub open spec fn new_records(existing: Set<i32>, snapshot: Seq<IncidentSummary>) -> Seq<IncidentSummary> {
    snapshot.filter(new_record_pred(existing))
}

/// Whether a record's identifier is not in `existing`.
pub open spec fn new_record_pred(existing: Set<i32>) -> spec_fn(IncidentSummary) -> bool {
    |s: IncidentSummary| !existing.contains(s.incident_id)
}

/// Reads the stored identifiers into a set.
pub fn collect_ids(ids: &Vec<i32>) -> (r: HashSet<i32>)
    ensures
        r@ == ids@.to_set(),
{
    let mut r: HashSet<i32> = HashSet::new();
    let mut i: usize = 0;
    while i < ids.len()
        invariant
            i <= ids.len(),
            r@ == ids@.subrange(0, i as int).to_set(),
        decreases ids.len() - i,
    {
        proof {
            assert(ids@.subrange(0, i + 1) == ids@.subrange(0, i as int) + seq![ids@[i as int]]);
            Seq::lemma_to_set_insert_commutes(ids@.subrange(0, i as int), ids@[i as int]);
        }
        r.insert(ids[i]);
        i = i + 1;
    }
    assert(ids@.subrange(0, ids.len() as int) == ids@);
    r
}

/// The records of the snapshot that are not yet stored, in the snapshot's
/// order.
pub fn new_incidents(existing: &HashSet<i32>, snapshot: Vec<IncidentSummary>) -> (r: Vec<IncidentSummary>)
    ensures
        r@ == new_records(existing@, snapshot@),
{
    let ghost pred = new_record_pred(existing@);
    let mut rest = snapshot;
    let mut r: Vec<IncidentSummary> = Vec::new();
    while rest.len() > 0
        invariant
            pred == new_record_pred(existing@),
            r@ + rest@.filter(pred) == snapshot@.filter(pred),
        decreases rest.len(),
    {
        let ghost before = rest@;
        let s = rest.remove(0);
        proof {
            assert(before == seq![s] + rest@);
            before.drop_first().lemma_filter_prepend(s, pred);
            assert(before.drop_first() == rest@);
        }
        let keep = !existing.contains(&s.incident_id);
        let ghost r_before = r@;
        if keep {
            r.push(s);
        }
        proof {
            assert(keep == pred(s));
            if keep {
                assert(r@ == r_before + seq![s]);
                assert(r@ + rest@.filter(pred) == r_before + (seq![s] + rest@.filter(pred)));
            } else {
                assert(Seq::<IncidentSummary>::empty() + rest@.filter(pred) == rest@.filter(pred));
            }
        }
    }
    assert(rest@.filter(pred) == Seq::<IncidentSummary>::empty());
    assert(r@ + Seq::<IncidentSummary>::empty() == r@);
    r
}

/// Every record of `new_records(existing, snapshot)` comes from the snapshot
/// and has an identifier outside `existing`; every record of the snapshot
/// with such an identifier is among them.
pub proof fn lemma_new_records_members(existing: Set<i32>, snapshot: Seq<IncidentSummary>, s: IncidentSummary)
    ensures
        new_records(existing, snapshot).contains(s) <==> (snapshot.contains(s) && !existing.contains(
            s.incident_id,
        )),
{
    let pred = new_record_pred(existing);
    if snapshot.contains(s) && pred(s) {
        let i = choose|i: int| 0 <= i < snapshot.len() && snapshot[i] == s;
        snapshot.lemma_filter_contains(pred, i);
    }
    if new_records(existing, snapshot).contains(s) {
        snapshot.lemma_filter_contains_rev(pred, s);
        let i = choose|i: int| 0 <= i < snapshot.filter(pred).len() && snapshot.filter(pred)[i] == s;
        snapshot.lemma_filter_pred(pred, i);
    }
}

/// A second run over the same snapshot, once the first run has stored all
/// the records it found new, finds nothing new.
pub proof fn lemma_second_run_finds_nothing(existing: Set<i32>, snapshot: Seq<IncidentSummary>)
    ensures
        new_records(existing.union(ids_of(new_records(existing, snapshot))), snapshot).len() == 0,
{
    let first = new_records(existing, snapshot);
    let after = existing.union(ids_of(first));
    let pred = new_record_pred(after);
    assert forall|i: int| 0 <= i < snapshot.len() implies !pred(#[trigger] snapshot[i]) by {
        let s = snapshot[i];
        assert(snapshot.contains(s));
        if !existing.contains(s.incident_id) {
            lemma_new_records_members(existing, snapshot, s);
            let j = choose|j: int| 0 <= j < first.len() && first[j] == s;
            assert(ids_of(first).contains(s.incident_id));
        }
    }
    snapshot.lemma_all_neg_filter_empty(pred);
}

} // verus!
