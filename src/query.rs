//! Choosing the string table that supplies the result. The caller owns the
//! resource block and performs the lookups; `VersionQuery` says which paths to
//! look up next and decides, from what was found, whether the search is over.

use vstd::prelude::*;
use crate::field::{field_at, field_path, field_path_spec, field_value, FieldName, FIELD_COUNT};
use crate::record::{empty_values, found_units, VersionInfoOs};
use crate::translation::{candidate_ids, candidate_ids_spec, resolve_translation, resolved_id};

verus! {

/// A structured-path lookup into one resource block: what it finds under
/// each path, if anything.
pub type Lookup = spec_fn(Seq<u16>) -> Option<Seq<u16>>;

/// The file version among values given in the fixed field order.
pub open spec fn file_version_of(values: Seq<Seq<u16>>) -> Seq<u16> {
    values[3]
}

/// The record that the string table of translation `id` yields.
pub open spec fn record_for(id: u32, lookup: Lookup) -> Seq<Seq<u16>> {
    Seq::new(
        FIELD_COUNT as nat,
        |i: int| field_value(lookup(field_path_spec(field_at(i), id))),
    )
}

/// The record from twelve lookup results given in the fixed field order.
pub open spec fn record_from_found(found: Seq<Option<Vec<u16>>>) -> Seq<Seq<u16>> {
    Seq::new(FIELD_COUNT as nat, |i: int| field_value(found_units(found[i])))
}

/// The result of a query over the candidate ids `ids`: the record of the
/// first candidate whose file version is not empty, or the all-empty record
/// when there is none.
pub open spec fn selected(ids: Seq<u32>, lookup: Lookup) -> Seq<Seq<u16>>
    decreases ids.len(),
{
    if ids.len() == 0 {
        empty_values::<u16>()
    } else if file_version_of(record_for(ids[0], lookup)).len() > 0 {
        record_for(ids[0], lookup)
    } else {
        selected(ids.drop_first(), lookup)
    }
}

/// The search over the candidate translations of one resource block.
#[derive(Debug)]
pub struct VersionQuery {
    /// The translation ids to try, in order.
    pub candidates: Vec<u32>,
    /// The position of the candidate to try next.
    pub next: usize,
    /// Whether a candidate has supplied the result.
    pub finished: bool,
}

impl VersionQuery {
    /// Whether no lookups remain to be made.
    pub open spec fn is_over(&self) -> bool {
        self.finished || self.next >= self.candidates@.len()
    }

    /// Starts a search from the value found at `\VarFileInfo\Translation`
    /// (`None` where the lookup found nothing): the declared translation, if
    /// any, is tried first, then the three US English fallbacks.
    pub fn new(translation: Option<&[u8]>) -> (r: VersionQuery)
        ensures
            r.candidates@ == candidate_ids_spec(
                resolved_id(
                    match translation {
                        Some(b) => Some(b@),
                        None => None,
                    },
                ),
            ),
            r.next == 0,
            !r.finished,
    {
        let resolved = resolve_translation(translation);
        VersionQuery { candidates: candidate_ids(resolved), next: 0, finished: false }
    }

    /// The paths to look up for the current candidate, in the fixed field
    /// order; `None` once the search is over.
    pub fn paths(&self) -> (r: Option<Vec<Vec<u16>>>)
        ensures
            self.is_over() <==> r is None,
            r matches Some(p) ==> p@.len() == FIELD_COUNT && forall|i: int|
                0 <= i < FIELD_COUNT ==> #[trigger] p@[i]@ == field_path_spec(
                    field_at(i),
                    self.candidates@[self.next as int],
                ),
    {
        if self.finished || self.next >= self.candidates.len() {
            return None;
        }
        let id = self.candidates[self.next];
        let mut out: Vec<Vec<u16>> = Vec::new();
        let mut i: usize = 0;
        while i < FIELD_COUNT
            invariant
                i <= FIELD_COUNT,
                out@.len() == i,
                forall|j: int| 0 <= j < i ==> #[trigger] out@[j]@ == field_path_spec(field_at(j), id),
            decreases FIELD_COUNT - i,
        {
            out.push(field_path(FieldName::at(i), id));
            i = i + 1;
        }
        Some(out)
    }

    /// Takes what the lookups of `paths` found for the current candidate, in
    /// the same order. When the record they make has a file version, the
    /// search ends and the record is returned; otherwise the next candidate
    /// becomes current. Once the search is over nothing changes.
    pub fn advance(&mut self, found: &Vec<Option<Vec<u16>>>) -> (r: Option<VersionInfoOs>)
        requires
            found@.len() == FIELD_COUNT,
        ensures
            old(self).is_over() ==> r is None && *final(self) == *old(self),
            !old(self).is_over() && file_version_of(record_from_found(found@)).len() > 0 ==> {
                &&& r matches Some(info) && info.values() == record_from_found(found@)
                &&& final(self).finished
                &&& final(self).candidates == old(self).candidates
                &&& final(self).next == old(self).next
            },
            !old(self).is_over() && file_version_of(record_from_found(found@)).len() == 0 ==> {
                &&& r is None
                &&& !final(self).finished
                &&& final(self).candidates == old(self).candidates
                &&& final(self).next == old(self).next + 1
            },
    {
        if self.finished || self.next >= self.candidates.len() {
            return None;
        }
        let info = VersionInfoOs::from_lookups(found);
        assert(info.values() =~= record_from_found(found@));
        if info.has_file_version() {
            self.finished = true;
            Some(info)
        } else {
            self.next = self.next + 1;
            None
        }
    }
}

/// Lookup results given for the paths of candidate `id` make that
/// candidate's record.
pub proof fn lemma_found_is_record(found: Seq<Option<Vec<u16>>>, id: u32, lookup: Lookup)
    requires
        found.len() == FIELD_COUNT,
        forall|i: int|
            0 <= i < FIELD_COUNT ==> found_units(#[trigger] found[i]) == lookup(
                field_path_spec(field_at(i), id),
            ),
    ensures
        record_from_found(found) == record_for(id, lookup),
{
    assert(record_from_found(found) =~= record_for(id, lookup));
}

/// One step of the search: from candidate `n` on, the result is that
/// candidate's record if it has a file version, and otherwise the result
/// from candidate `n + 1` on.
pub proof fn lemma_selection_step(ids: Seq<u32>, n: int, lookup: Lookup)
    requires
        0 <= n < ids.len(),
    ensures
        file_version_of(record_for(ids[n], lookup)).len() > 0 ==> selected(ids.skip(n), lookup)
            == record_for(ids[n], lookup),
        file_version_of(record_for(ids[n], lookup)).len() == 0 ==> selected(ids.skip(n), lookup)
            == selected(ids.skip(n + 1), lookup),
{
    assert(ids.skip(n)[0] == ids[n]);
    assert(ids.skip(n).drop_first() =~= ids.skip(n + 1));
}

/// The first candidate whose record has a file version supplies the result.
pub proof fn lemma_first_with_version_wins(ids: Seq<u32>, lookup: Lookup, k: int)
    requires
        0 <= k < ids.len(),
        file_version_of(record_for(ids[k], lookup)).len() > 0,
        forall|j: int| 0 <= j < k ==> file_version_of(record_for(#[trigger] ids[j], lookup)).len() == 0,
    ensures
        selected(ids, lookup) == record_for(ids[k], lookup),
    decreases k,
{
    if k > 0 {
        assert forall|j: int| 0 <= j < k - 1 implies file_version_of(
            record_for(#[trigger] ids.drop_first()[j], lookup),
        ).len() == 0 by {
            assert(ids.drop_first()[j] == ids[j + 1]);
        }
        lemma_first_with_version_wins(ids.drop_first(), lookup, k - 1);
    }
}

/// Once candidate `k` has a file version, no lookup under a later candidate
/// changes the result: two blocks that agree on the paths of candidates up
/// to `k` give the same result.
pub proof fn lemma_later_candidates_unread(ids: Seq<u32>, l1: Lookup, l2: Lookup, k: int)
    requires
        0 <= k < ids.len(),
        file_version_of(record_for(ids[k], l1)).len() > 0,
        forall|j: int, i: int|
            0 <= j <= k && 0 <= i < FIELD_COUNT ==> l1(field_path_spec(field_at(i), ids[j]))
                == l2(#[trigger] field_path_spec(field_at(i), ids[j])),
    ensures
        selected(ids, l1) == selected(ids, l2),
    decreases k,
{
    assert(record_for(ids[0], l1) =~= record_for(ids[0], l2)) by {
        assert forall|i: int| 0 <= i < FIELD_COUNT implies l1(field_path_spec(field_at(i), ids[0]))
            == l2(field_path_spec(field_at(i), ids[0])) by {
            assert(l1(field_path_spec(field_at(i), ids[0])) == l2(
                field_path_spec(field_at(i), ids[0]),
            ));
        }
    }
    if k > 0 && file_version_of(record_for(ids[0], l1)).len() == 0 {
        let rest = ids.drop_first();
        assert forall|j: int, i: int|
            0 <= j <= k - 1 && 0 <= i < FIELD_COUNT implies l1(
                field_path_spec(field_at(i), rest[j]),
            ) == l2(#[trigger] field_path_spec(field_at(i), rest[j])) by {
            assert(rest[j] == ids[j + 1]);
        }
        lemma_later_candidates_unread(rest, l1, l2, k - 1);
    }
}

/// A block with no string table for any candidate gives the all-empty record.
pub proof fn lemma_no_tables_all_empty(ids: Seq<u32>, lookup: Lookup)
    requires
        forall|j: int, i: int|
            0 <= j < ids.len() && 0 <= i < FIELD_COUNT ==> (#[trigger] lookup(
                field_path_spec(field_at(i), ids[j]),
            )) is None,
    ensures
        selected(ids, lookup) == empty_values::<u16>(),
    decreases ids.len(),
{
    if ids.len() > 0 {
        assert(record_for(ids[0], lookup) =~= empty_values::<u16>()) by {
            assert forall|i: int| 0 <= i < FIELD_COUNT implies lookup(
                field_path_spec(field_at(i), ids[0]),
            ) is None by {
                assert(lookup(field_path_spec(field_at(i), ids[0])) is None);
            }
        }
        let rest = ids.drop_first();
        assert forall|j: int, i: int|
            0 <= j < rest.len() && 0 <= i < FIELD_COUNT implies (#[trigger] lookup(
                field_path_spec(field_at(i), rest[j]),
            )) is None by {
            assert(rest[j] == ids[j + 1]);
            assert(lookup(field_path_spec(field_at(i), ids[j + 1])) is None);
        }
        lemma_no_tables_all_empty(rest, lookup);
    }
}

} // verus!
