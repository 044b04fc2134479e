//! The hierarchical predicate builder: given a taxon, the ordered list of
//! field-equality constraints scoped to its rank, used to find every sighting
//! (and, through sightings, every trip) "under" that taxon.
//!
//! A constraint is emitted for each field significant at the taxon's rank
//! whose value is present; a missing significant field is silently skipped,
//! which broadens the match — this behavior is depended upon and kept.

use vstd::prelude::*;
use vstd::seq_lib::group_to_multiset_ensures;
use vstd::multiset::group_multiset_axioms;
use vstd::string::StringExecFns;
use crate::models::{Sighting, Taxon, sighting_field, taxon_field};
use crate::rank::{Field, Rank, field_at, field_index, rank_index, spec_rank_of};

verus! {

broadcast use group_to_multiset_ensures, group_multiset_axioms;

/// One field-equality requirement of a hierarchical predicate.
#[derive(Debug)]
pub struct Constraint {
    pub field: Field,
    pub value: String,
}

impl Clone for Constraint {
    fn clone(&self) -> (res: Self)
        ensures
            res == *self,
    {
        Constraint { field: self.field, value: self.value.clone() }
    }
}

/// The matching level of a taxon's rank string: the rank's own position for
/// the eight rank names. Rank strings are validated when a taxon is created,
/// so no other string should occur; a record that nevertheless carries one is
/// constrained on the kingdom, phylum and class fields only, as the query
/// logic has always treated it.
pub open spec fn rank_level(s: Seq<char>) -> int {
    match spec_rank_of(s) {
        Some(r) => rank_index(r),
        None => rank_index(Rank::Class),
    }
}

/// A field takes part in a taxon's predicate when it is significant at the
/// taxon's rank and the taxon has a value for it.
pub open spec fn included(t: Taxon, f: Field) -> bool {
    field_index(f) <= rank_level(t.rank@) && taxon_field(t, f) is Some
}

/// A sighting satisfies one constraint when its denormalized field holds
/// exactly the constrained value; an absent field satisfies nothing.
pub open spec fn constraint_holds(s: Sighting, c: Constraint) -> bool {
    sighting_field(s, c.field) == Some(c.value@)
}

/// The sequence holds this sighting value within its first `n` elements.
pub open spec fn sighting_in_prefix(v: Seq<Sighting>, n: int, x: Sighting) -> bool {
    exists|j: int| 0 <= j < n && v[j] == x
}

/// The sequence holds this sighting value.
pub open spec fn contains_sighting(v: Seq<Sighting>, x: Sighting) -> bool {
    sighting_in_prefix(v, v.len() as int, x)
}

/// A sighting satisfies a predicate when it satisfies every constraint.
pub open spec fn matches_constraints(s: Sighting, cs: Seq<Constraint>) -> bool {
    forall|i: int| 0 <= i < cs.len() ==> #[trigger] constraint_holds(s, cs[i])
}

/// A sighting lies under a taxon: it agrees with the taxon on every field
/// the taxon's predicate includes.
pub open spec fn matches_taxon(s: Sighting, t: Taxon) -> bool {
    forall|f: Field| #[trigger] included(t, f) ==> sighting_field(s, f) == taxon_field(t, f)
}

fn field_of(i: usize) -> (f: Field)
    requires
        i <= 7,
    ensures
        f == field_at(i as int),
        field_index(f) == i,
{
    match i {
        0 => Field::Kingdom,
        1 => Field::Phylum,
        2 => Field::Class,
        3 => Field::Order,
        4 => Field::Family,
        5 => Field::Subfamily,
        6 => Field::Genus,
        _ => Field::SpeciesEpithet,
    }
}

/// The matching level of a taxon's rank string.
pub fn rank_level_of(s: &String) -> (lvl: usize)
    ensures
        lvl == rank_level(s@),
        lvl <= 7,
{
    match crate::rank::parse_rank(s.as_str()) {
        Some(Rank::Kingdom) => 0,
        Some(Rank::Phylum) => 1,
        Some(Rank::Class) => 2,
        Some(Rank::Order) => 3,
        Some(Rank::Family) => 4,
        Some(Rank::Subfamily) => 5,
        Some(Rank::Genus) => 6,
        Some(Rank::Species) => 7,
        None => 2,
    }
}

/// Builds a taxon's hierarchical predicate: one equality constraint for each
/// significant field that is present on the taxon, in field order, coarsest
/// first. The contract pins the list down exactly: every constraint is an
/// included field carrying the taxon's value, every included field appears,
/// fields are strictly ordered, and no field below the taxon's rank ever
/// appears.
pub fn build_constraints(t: &Taxon) -> (v: Vec<Constraint>)
    ensures
        forall|i: int| 0 <= i < v@.len() ==> included(*t, #[trigger] v@[i].field)
            && taxon_field(*t, v@[i].field) == Some(v@[i].value@),
        forall|f: Field| #[trigger] included(*t, f) ==> exists|i: int|
            0 <= i < v@.len() && v@[i].field == f,
        forall|i: int, j: int| 0 <= i < j < v@.len() ==> field_index(v@[i].field) < field_index(
            v@[j].field,
        ),
{
    let lvl = rank_level_of(&t.rank);
    let mut v: Vec<Constraint> = Vec::new();
    let mut idx: usize = 0;
    while idx <= lvl
        invariant
            lvl <= 7,
            lvl == rank_level(t.rank@),
            idx <= lvl + 1,
            forall|i: int| 0 <= i < v@.len() ==> included(*t, #[trigger] v@[i].field)
                && taxon_field(*t, v@[i].field) == Some(v@[i].value@),
            forall|i: int| 0 <= i < v@.len() ==> field_index(#[trigger] v@[i].field) < idx,
            forall|f: Field| field_index(f) < idx && #[trigger] included(*t, f) ==> exists|i: int|
                0 <= i < v@.len() && v@[i].field == f,
            forall|i: int, j: int| 0 <= i < j < v@.len() ==> field_index(v@[i].field)
                < field_index(v@[j].field),
        decreases lvl + 1 - idx,
    {
        let f = field_of(idx);
        match crate::models::taxon_field_get(t, f) {
            Some(s) => {
                let ghost old_v = v@;
                v.push(Constraint { field: f, value: s.clone() });
                proof {
                    assert(v@[v@.len() - 1].field == f);
                    assert(forall|i: int| 0 <= i < old_v.len() ==> v@[i] == old_v[i]);
                }
            },
            None => {},
        }
        idx += 1;
    }
    v
}

/// The predicate of a taxon characterizes exactly the sightings that lie
/// under it: a sighting satisfies the built constraint list if and only if it
/// agrees with the taxon on every included field.
pub proof fn lemma_constraints_characterize(t: Taxon, cs: Seq<Constraint>, s: Sighting)
    requires
        forall|i: int| 0 <= i < cs.len() ==> included(t, #[trigger] cs[i].field)
            && taxon_field(t, cs[i].field) == Some(cs[i].value@),
        forall|f: Field| #[trigger] included(t, f) ==> exists|i: int|
            0 <= i < cs.len() && cs[i].field == f,
    ensures
        matches_constraints(s, cs) == matches_taxon(s, t),
{
    if matches_constraints(s, cs) {
        assert forall|f: Field| #[trigger] included(t, f) implies sighting_field(s, f)
            == taxon_field(t, f) by {
            let i = choose|i: int| 0 <= i < cs.len() && cs[i].field == f;
            assert(constraint_holds(s, cs[i]));
        }
    }
    if matches_taxon(s, t) {
        assert forall|i: int| 0 <= i < cs.len() implies #[trigger] constraint_holds(
            s,
            cs[i],
        ) by {
            assert(included(t, cs[i].field));
        }
    }
}

/// For a taxon whose rank string names a rank, the predicate includes a
/// field exactly when the field is significant at that rank — every field
/// from kingdom through the rank itself — and the taxon has a value for it;
/// a field below the taxon's rank is never included.
pub proof fn lemma_included_significant(t: Taxon, r: Rank)
    requires
        spec_rank_of(t.rank@) == Some(r),
    ensures
        forall|f: Field| #[trigger] included(t, f) <==> crate::rank::significant(r, f)
            && taxon_field(t, f) is Some,
{
}

/// Monotonicity of the hierarchy: refining the predicate from a coarser
/// taxon `a` to a finer taxon `b` that agrees with `a` on every field `a`'s
/// predicate includes only ever adds constraints, so every sighting under
/// `b` is also under `a` — for every rank transition, the coarser result set
/// contains the finer one.
pub proof fn lemma_hierarchy_monotonic(a: Taxon, b: Taxon, s: Sighting)
    requires
        rank_level(a.rank@) <= rank_level(b.rank@),
        forall|f: Field| #[trigger] included(a, f) ==> taxon_field(b, f) == taxon_field(a, f),
        matches_taxon(s, b),
    ensures
        matches_taxon(s, a),
{
    assert forall|f: Field| #[trigger] included(a, f) implies sighting_field(s, f)
        == taxon_field(a, f) by {
        assert(taxon_field(b, f) == taxon_field(a, f));
        assert(included(b, f));
    }
}

/// The column a classification field is stored in; the order column needs
/// quoting.
pub open spec fn column_name(f: Field) -> Seq<char> {
    match f {
        Field::Kingdom => "kingdom"@,
        Field::Phylum => "phylum"@,
        Field::Class => "class"@,
        Field::Order => "\"order\""@,
        Field::Family => "family"@,
        Field::Subfamily => "subfamily"@,
        Field::Genus => "genus"@,
        Field::SpeciesEpithet => "species_epithet"@,
    }
}

fn column_sql(f: Field) -> (r: &'static str)
    ensures
        r@ == column_name(f),
{
    match f {
        Field::Kingdom => "kingdom",
        Field::Phylum => "phylum",
        Field::Class => "class",
        Field::Order => "\"order\"",
        Field::Family => "family",
        Field::Subfamily => "subfamily",
        Field::Genus => "genus",
        Field::SpeciesEpithet => "species_epithet",
    }
}

/// The text a constraint list compiles to: one `column = ?` equality per
/// constraint, joined with `AND`, each column under the given prefix.
pub open spec fn clause_of(cs: Seq<Constraint>, pre: Seq<char>) -> Seq<char>
    decreases cs.len(),
{
    if cs.len() == 0 {
        Seq::empty()
    } else if cs.len() == 1 {
        pre + column_name(cs[0].field) + " = ?"@
    } else {
        clause_of(cs.drop_last(), pre) + " AND "@ + pre + column_name(cs.last().field) + " = ?"@
    }
}

/// Compiles a constraint list into the equality clause the storage layer
/// expects, with one positional parameter per constraint.
pub fn build_clause(cs: &Vec<Constraint>, pre: &str) -> (r: String)
    ensures
        r@ == clause_of(cs@, pre@),
{
    let mut r = String::new();
    let mut i: usize = 0;
    while i < cs.len()
        invariant
            i <= cs@.len(),
            r@ == clause_of(cs@.take(i as int), pre@),
        decreases cs@.len() - i,
    {
        if i > 0 {
            r.append(" AND ");
        }
        r.append(pre);
        r.append(column_sql(cs[i].field));
        r.append(" = ?");
        proof {
            let taken = cs@.take(i + 1);
            assert(taken.drop_last() =~= cs@.take(i as int));
            assert(taken.last() == cs@[i as int]);
            assert(r@ =~= clause_of(taken, pre@));
        }
        i += 1;
    }
    proof {
        assert(cs@.take(cs@.len() as int) =~= cs@);
    }
    r
}

/// The parameter values of a constraint list, in clause order.
pub fn clause_params(cs: &Vec<Constraint>) -> (r: Vec<String>)
    ensures
        r@.len() == cs@.len(),
        forall|i: int| 0 <= i < r@.len() ==> (#[trigger] r@[i])@ == cs@[i].value@,
{
    let mut r: Vec<String> = Vec::new();
    let mut i: usize = 0;
    while i < cs.len()
        invariant
            i <= cs@.len(),
            r@.len() == i,
            forall|k: int| 0 <= k < i ==> (#[trigger] r@[k])@ == cs@[k].value@,
        decreases cs@.len() - i,
    {
        r.push(cs[i].value.clone());
        i += 1;
    }
    r
}

/// Whether a sighting satisfies a constraint list.
pub fn sighting_matches(s: &Sighting, cs: &Vec<Constraint>) -> (r: bool)
    ensures
        r == matches_constraints(*s, cs@),
{
    let mut i: usize = 0;
    while i < cs.len()
        invariant
            i <= cs@.len(),
            forall|k: int| 0 <= k < i ==> #[trigger] constraint_holds(*s, cs@[k]),
        decreases cs@.len() - i,
    {
        let c = &cs[i];
        let ok = match crate::models::sighting_field_get(s, c.field) {
            Some(x) => x.eq(&c.value),
            None => false,
        };
        if !ok {
            assert(!constraint_holds(*s, cs@[i as int]));
            return false;
        }
        assert(constraint_holds(*s, cs@[i as int]));
        i += 1;
    }
    true
}

/// Keeps exactly the sightings that satisfy the constraint list, preserving
/// their order: every kept row matches and comes from the input, every
/// matching input row is kept, and no row is kept more often than the input
/// holds it.
pub fn filter_matching(v: Vec<Sighting>, cs: &Vec<Constraint>) -> (r: Vec<Sighting>)
    ensures
        forall|i: int| 0 <= i < r@.len() ==> matches_constraints(#[trigger] r@[i], cs@),
        forall|i: int| 0 <= i < r@.len() ==> contains_sighting(v@, #[trigger] r@[i]),
        forall|j: int| 0 <= j < v@.len() && matches_constraints(#[trigger] v@[j], cs@)
            ==> contains_sighting(r@, v@[j]),
        r@.to_multiset().subset_of(v@.to_multiset()),
        r@.len() <= v@.len(),
        crate::models::sightings_distinct_ids(v@) ==> crate::models::sightings_distinct_ids(r@),
        crate::order::sightings_query_ordered(v@) ==> crate::order::sightings_query_ordered(r@),
{
    let mut r: Vec<Sighting> = Vec::new();
    let mut i: usize = 0;
    while i < v.len()
        invariant
            i <= v@.len(),
            r@.len() <= i,
            forall|k: int| 0 <= k < r@.len() ==> matches_constraints(#[trigger] r@[k], cs@),
            forall|k: int| 0 <= k < r@.len() ==> sighting_in_prefix(v@, i as int, #[trigger] r@[k]),
            forall|j: int| 0 <= j < i && matches_constraints(#[trigger] v@[j], cs@)
                ==> contains_sighting(r@, v@[j]),
            r@.to_multiset().subset_of(v@.take(i as int).to_multiset()),
            crate::models::sightings_distinct_ids(v@) ==> crate::models::sightings_distinct_ids(
                r@,
            ),
            crate::order::sightings_query_ordered(v@) ==> crate::order::sightings_query_ordered(
                r@,
            ),
        decreases v@.len() - i,
    {
        let s = &v[i];
        let ghost pre = v@.take(i as int);
        proof {
            assert(v@.take(i + 1) =~= pre.push(v@[i as int]));
            assert(v@.take(i + 1).to_multiset() =~= pre.to_multiset().insert(v@[i as int]));
        }
        if sighting_matches(s, cs) {
            let ghost old_r = r@;
            r.push(s.clone());
            proof {
                assert(forall|k: int| 0 <= k < old_r.len() ==> r@[k] == old_r[k]);
                assert(r@[r@.len() - 1] == v@[i as int]);
                assert(r@.to_multiset() =~= old_r.to_multiset().insert(v@[i as int]));
                assert forall|j: int| 0 <= j < i + 1 && matches_constraints(
                    #[trigger] v@[j],
                    cs@,
                ) implies contains_sighting(r@, v@[j]) by {
                    if j < i {
                        let k = choose|k: int| 0 <= k < old_r.len() && old_r[k] == v@[j];
                        assert(r@[k] == v@[j]);
                    } else {
                        assert(r@[r@.len() - 1] == v@[j]);
                    }
                }
                if crate::models::sightings_distinct_ids(v@) {
                    assert forall|a: int, b: int| 0 <= a < b < r@.len() implies r@[a].id
                        != r@[b].id by {
                        if b < r@.len() - 1 {
                            assert(old_r[a].id != old_r[b].id);
                        } else {
                            let j = choose|j: int| 0 <= j < i && v@[j] == old_r[a];
                            assert(v@[j].id != v@[i as int].id);
                        }
                    }
                }
                if crate::order::sightings_query_ordered(v@) {
                    assert forall|a: int, b: int| 0 <= a < b < r@.len() implies
                        #[trigger] crate::order::sighting_query_le(r@[a], r@[b]) by {
                        if b < r@.len() - 1 {
                            assert(crate::order::sighting_query_le(old_r[a], old_r[b]));
                        } else {
                            let j = choose|j: int| 0 <= j < i && v@[j] == old_r[a];
                            assert(crate::order::sighting_query_le(v@[j], v@[i as int]));
                        }
                    }
                }
            }
        } else {
            assert(!matches_constraints(v@[i as int], cs@));
        }
        i += 1;
    }
    proof {
        assert(v@.take(v@.len() as int) =~= v@);
    }
    r
}

} // verus!
