//! Substring-search rules: which text fields of each record kind a query is
//! matched against, and de-duplication of trip results.
//!
//! A record matches when the trimmed query occurs, case-insensitively for
//! ASCII letters, in any applicable field. For sightings the applicable
//! fields are the denormalized classification, the common name, the date and
//! the location — not the notes or the media path. For taxa they are the
//! classification fields and the common name.

use vstd::prelude::*;
use vstd::seq_lib::group_to_multiset_ensures;
use vstd::multiset::group_multiset_axioms;
use crate::models::{Sighting, Taxon, Trip};
use crate::text::{contains_ci, opt_contains, opt_contains_ci, text_contains};

verus! {

broadcast use group_to_multiset_ensures, group_multiset_axioms;

/// The query occurs in one of a sighting's searchable fields.
pub open spec fn sighting_matches_query(s: Sighting, q: Seq<char>) -> bool {
    text_contains(s.kingdom@, q) || opt_contains(s.phylum, q) || opt_contains(s.class, q)
        || opt_contains(s.order, q) || opt_contains(s.family, q) || opt_contains(s.subfamily, q)
        || opt_contains(s.genus, q) || opt_contains(s.species_epithet, q) || text_contains(
        s.common_name@,
        q,
    ) || opt_contains(s.date, q) || opt_contains(s.location, q)
}

/// The query occurs in one of a taxon's searchable fields.
pub open spec fn taxon_matches_query(t: Taxon, q: Seq<char>) -> bool {
    text_contains(t.kingdom@, q) || opt_contains(t.phylum, q) || opt_contains(t.class, q)
        || opt_contains(t.order, q) || opt_contains(t.family, q) || opt_contains(t.subfamily, q)
        || opt_contains(t.genus, q) || opt_contains(t.species_epithet, q) || text_contains(
        t.common_name@,
        q,
    )
}

/// Whether the query occurs in one of a sighting's searchable fields.
pub fn sighting_query_match(s: &Sighting, q: &str) -> (r: bool)
    ensures
        r == sighting_matches_query(*s, q@),
{
    contains_ci(s.kingdom.as_str(), q) || opt_contains_ci(&s.phylum, q) || opt_contains_ci(
        &s.class,
        q,
    ) || opt_contains_ci(&s.order, q) || opt_contains_ci(&s.family, q) || opt_contains_ci(
        &s.subfamily,
        q,
    ) || opt_contains_ci(&s.genus, q) || opt_contains_ci(&s.species_epithet, q) || contains_ci(
        s.common_name.as_str(),
        q,
    ) || opt_contains_ci(&s.date, q) || opt_contains_ci(&s.location, q)
}

/// Whether the query occurs in one of a taxon's searchable fields.
pub fn taxon_query_match(t: &Taxon, q: &str) -> (r: bool)
    ensures
        r == taxon_matches_query(*t, q@),
{
    contains_ci(t.kingdom.as_str(), q) || opt_contains_ci(&t.phylum, q) || opt_contains_ci(
        &t.class,
        q,
    ) || opt_contains_ci(&t.order, q) || opt_contains_ci(&t.family, q) || opt_contains_ci(
        &t.subfamily,
        q,
    ) || opt_contains_ci(&t.genus, q) || opt_contains_ci(&t.species_epithet, q) || contains_ci(
        t.common_name.as_str(),
        q,
    )
}

/// The sequence holds this taxon value.
pub open spec fn seq_contains_taxon(v: Seq<Taxon>, x: Taxon) -> bool {
    exists|j: int| 0 <= j < v.len() && v[j] == x
}

/// The sequence holds a trip with this id.
pub open spec fn has_trip_id(v: Seq<Trip>, id: i64) -> bool {
    exists|j: int| 0 <= j < v.len() && v[j].id == id
}

/// The sequence holds this trip value within its first `n` elements.
pub open spec fn trip_in_prefix(v: Seq<Trip>, n: int, x: Trip) -> bool {
    exists|j: int| 0 <= j < n && v[j] == x
}

/// The sequence holds this trip value.
pub open spec fn seq_contains_trip(v: Seq<Trip>, x: Trip) -> bool {
    trip_in_prefix(v, v.len() as int, x)
}

/// Keeps exactly the sightings in which the query occurs, in order: every
/// kept row matches and comes from the input, every matching input row is
/// kept, and no row is kept more often than the input holds it.
pub fn filter_sightings_by_query(v: Vec<Sighting>, q: &str) -> (r: Vec<Sighting>)
    ensures
        forall|i: int| 0 <= i < r@.len() ==> sighting_matches_query(#[trigger] r@[i], q@),
        forall|i: int| 0 <= i < r@.len() ==> crate::hierarchy::contains_sighting(
            v@,
            #[trigger] r@[i],
        ),
        forall|j: int| 0 <= j < v@.len() && sighting_matches_query(#[trigger] v@[j], q@)
            ==> crate::hierarchy::contains_sighting(r@, v@[j]),
        r@.to_multiset().subset_of(v@.to_multiset()),
        r@.len() <= v@.len(),
{
    let mut r: Vec<Sighting> = Vec::new();
    let mut i: usize = 0;
    while i < v.len()
        invariant
            i <= v@.len(),
            r@.len() <= i,
            forall|k: int| 0 <= k < r@.len() ==> sighting_matches_query(#[trigger] r@[k], q@),
            forall|k: int| 0 <= k < r@.len() ==> crate::hierarchy::contains_sighting(
                v@,
                #[trigger] r@[k],
            ),
            forall|j: int| 0 <= j < i && sighting_matches_query(#[trigger] v@[j], q@)
                ==> crate::hierarchy::contains_sighting(r@, v@[j]),
            r@.to_multiset().subset_of(v@.take(i as int).to_multiset()),
        decreases v@.len() - i,
    {
        let s = &v[i];
        proof {
            assert(v@.take(i + 1) =~= v@.take(i as int).push(v@[i as int]));
            assert(v@.take(i + 1).to_multiset() =~= v@.take(i as int).to_multiset().insert(
                v@[i as int],
            ));
        }
        if sighting_query_match(s, q) {
            let ghost old_r = r@;
            r.push(s.clone());
            proof {
                assert(forall|k: int| 0 <= k < old_r.len() ==> r@[k] == old_r[k]);
                assert(r@[r@.len() - 1] == v@[i as int]);
                assert(r@.to_multiset() =~= old_r.to_multiset().insert(v@[i as int]));
                assert forall|j: int| 0 <= j < i + 1 && sighting_matches_query(
                    #[trigger] v@[j],
                    q@,
                ) implies crate::hierarchy::contains_sighting(r@, v@[j]) by {
                    if j < i {
                        let k = choose|k: int| 0 <= k < old_r.len() && old_r[k] == v@[j];
                        assert(r@[k] == v@[j]);
                    } else {
                        assert(r@[r@.len() - 1] == v@[j]);
                    }
                }
            }
        } else {
            assert(!sighting_matches_query(v@[i as int], q@));
        }
        i += 1;
    }
    proof {
        assert(v@.take(v@.len() as int) =~= v@);
    }
    r
}

/// Keeps exactly the taxa in which the query occurs, in order: every kept
/// row matches and comes from the input, every matching input row is kept,
/// and no row is kept more often than the input holds it.
pub fn filter_taxa_by_query(v: Vec<Taxon>, q: &str) -> (r: Vec<Taxon>)
    ensures
        forall|i: int| 0 <= i < r@.len() ==> taxon_matches_query(#[trigger] r@[i], q@),
        forall|i: int| 0 <= i < r@.len() ==> seq_contains_taxon(v@, #[trigger] r@[i]),
        forall|j: int| 0 <= j < v@.len() && taxon_matches_query(#[trigger] v@[j], q@)
            ==> seq_contains_taxon(r@, v@[j]),
        r@.to_multiset().subset_of(v@.to_multiset()),
        r@.len() <= v@.len(),
{
    let mut r: Vec<Taxon> = Vec::new();
    let mut i: usize = 0;
    while i < v.len()
        invariant
            i <= v@.len(),
            r@.len() <= i,
            forall|k: int| 0 <= k < r@.len() ==> taxon_matches_query(#[trigger] r@[k], q@),
            forall|k: int| 0 <= k < r@.len() ==> seq_contains_taxon(v@, #[trigger] r@[k]),
            forall|j: int| 0 <= j < i && taxon_matches_query(#[trigger] v@[j], q@)
                ==> seq_contains_taxon(r@, v@[j]),
            r@.to_multiset().subset_of(v@.take(i as int).to_multiset()),
        decreases v@.len() - i,
    {
        let t = &v[i];
        proof {
            assert(v@.take(i + 1) =~= v@.take(i as int).push(v@[i as int]));
            assert(v@.take(i + 1).to_multiset() =~= v@.take(i as int).to_multiset().insert(
                v@[i as int],
            ));
        }
        if taxon_query_match(t, q) {
            let ghost old_r = r@;
            r.push(t.clone());
            proof {
                assert(forall|k: int| 0 <= k < old_r.len() ==> r@[k] == old_r[k]);
                assert(r@[r@.len() - 1] == v@[i as int]);
                assert(r@.to_multiset() =~= old_r.to_multiset().insert(v@[i as int]));
                assert forall|j: int| 0 <= j < i + 1 && taxon_matches_query(
                    #[trigger] v@[j],
                    q@,
                ) implies seq_contains_taxon(r@, v@[j]) by {
                    if j < i {
                        let k = choose|k: int| 0 <= k < old_r.len() && old_r[k] == v@[j];
                        assert(r@[k] == v@[j]);
                    } else {
                        assert(r@[r@.len() - 1] == v@[j]);
                    }
                }
            }
        } else {
            assert(!taxon_matches_query(v@[i as int], q@));
        }
        i += 1;
    }
    proof {
        assert(v@.take(v@.len() as int) =~= v@);
    }
    r
}

fn trips_have_id(r: &Vec<Trip>, id: i64) -> (b: bool)
    ensures
        b == has_trip_id(r@, id),
{
    let mut i: usize = 0;
    while i < r.len()
        invariant
            i <= r@.len(),
            forall|k: int| 0 <= k < i ==> r@[k].id != id,
        decreases r@.len() - i,
    {
        if r[i].id == id {
            return true;
        }
        i += 1;
    }
    false
}

/// Drops every trip whose id was already seen, keeping the first occurrence
/// in order: the result is distinct by id, every kept trip comes from the
/// input, every input id is still represented, and the input's order is
/// preserved.
pub fn dedup_trips_by_id(v: Vec<Trip>) -> (r: Vec<Trip>)
    ensures
        forall|i: int, j: int| 0 <= i < j < r@.len() ==> r@[i].id != r@[j].id,
        forall|i: int| 0 <= i < r@.len() ==> seq_contains_trip(v@, #[trigger] r@[i]),
        forall|j: int| 0 <= j < v@.len() ==> has_trip_id(r@, #[trigger] v@[j].id),
        r@.len() <= v@.len(),
        crate::order::trips_query_ordered(v@) ==> crate::order::trips_query_ordered(r@),
{
    let mut r: Vec<Trip> = Vec::new();
    let mut i: usize = 0;
    while i < v.len()
        invariant
            i <= v@.len(),
            r@.len() <= i,
            forall|a: int, b: int| 0 <= a < b < r@.len() ==> r@[a].id != r@[b].id,
            forall|k: int| 0 <= k < r@.len() ==> trip_in_prefix(v@, i as int, #[trigger] r@[k]),
            forall|j: int| 0 <= j < i ==> has_trip_id(r@, #[trigger] v@[j].id),
            crate::order::trips_query_ordered(v@) ==> crate::order::trips_query_ordered(r@),
        decreases v@.len() - i,
    {
        let t = &v[i];
        if !trips_have_id(&r, t.id) {
            let ghost old_r = r@;
            r.push(t.clone());
            proof {
                assert(forall|k: int| 0 <= k < old_r.len() ==> r@[k] == old_r[k]);
                assert(r@[r@.len() - 1] == v@[i as int]);
                assert(forall|j: int| 0 <= j < i && has_trip_id(old_r, #[trigger] v@[j].id)
                    ==> has_trip_id(r@, v@[j].id));
                if crate::order::trips_query_ordered(v@) {
                    assert forall|a: int, b: int| 0 <= a < b < r@.len() implies
                        #[trigger] crate::order::trip_query_le(r@[a], r@[b]) by {
                        if b < r@.len() - 1 {
                            assert(crate::order::trip_query_le(old_r[a], old_r[b]));
                        } else {
                            let j = choose|j: int| 0 <= j < i && v@[j] == old_r[a];
                            assert(crate::order::trip_query_le(v@[j], v@[i as int]));
                        }
                    }
                }
            }
        }
        i += 1;
    }
    r
}

} // verus!
