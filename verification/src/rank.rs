//! The rank hierarchy model: the eight ordered taxonomic ranks and, for each
//! rank, the ordered list of classification fields that are significant when
//! matching at that rank (every field from kingdom up to the rank itself).

use vstd::prelude::*;
use vstd::string::StrSliceExecFns;

verus! {

/// One of the eight ordered taxonomic levels, coarsest first.
#[derive(Clone, Copy, PartialEq, Eq, Structural, Debug)]
pub enum Rank {
    Kingdom,
    Phylum,
    Class,
    Order,
    Family,
    Subfamily,
    Genus,
    Species,
}

/// A classification field of a taxon or of a sighting's denormalized copy.
/// The fields mirror the ranks one for one; `SpeciesEpithet` is the field
/// significant at rank `Species`.
#[derive(Clone, Copy, PartialEq, Eq, Structural, Debug)]
pub enum Field {
    Kingdom,
    Phylum,
    Class,
    Order,
    Family,
    Subfamily,
    Genus,
    SpeciesEpithet,
}

/// Position of a rank in the coarse-to-fine order: kingdom is 0, species is 7.
pub open spec fn rank_index(r: Rank) -> int {
    match r {
        Rank::Kingdom => 0,
        Rank::Phylum => 1,
        Rank::Class => 2,
        Rank::Order => 3,
        Rank::Family => 4,
        Rank::Subfamily => 5,
        Rank::Genus => 6,
        Rank::Species => 7,
    }
}

/// Position of a classification field, aligned with `rank_index`.
pub open spec fn field_index(f: Field) -> int {
    match f {
        Field::Kingdom => 0,
        Field::Phylum => 1,
        Field::Class => 2,
        Field::Order => 3,
        Field::Family => 4,
        Field::Subfamily => 5,
        Field::Genus => 6,
        Field::SpeciesEpithet => 7,
    }
}

/// The field at a given position, inverse of `field_index`.
pub open spec fn field_at(i: int) -> Field {
    if i == 0 {
        Field::Kingdom
    } else if i == 1 {
        Field::Phylum
    } else if i == 2 {
        Field::Class
    } else if i == 3 {
        Field::Order
    } else if i == 4 {
        Field::Family
    } else if i == 5 {
        Field::Subfamily
    } else if i == 6 {
        Field::Genus
    } else {
        Field::SpeciesEpithet
    }
}

/// A field is significant at a rank exactly when it is no finer than the rank:
/// matching at a rank considers every field from kingdom through that rank.
pub open spec fn significant(r: Rank, f: Field) -> bool {
    field_index(f) <= rank_index(r)
}

/// The rank named by a string, if it names one; ranks are written in lower
/// case, and `species_epithet` is not a rank name.
pub open spec fn spec_rank_of(s: Seq<char>) -> Option<Rank> {
    if s == "kingdom"@ {
        Some(Rank::Kingdom)
    } else if s == "phylum"@ {
        Some(Rank::Phylum)
    } else if s == "class"@ {
        Some(Rank::Class)
    } else if s == "order"@ {
        Some(Rank::Order)
    } else if s == "family"@ {
        Some(Rank::Family)
    } else if s == "subfamily"@ {
        Some(Rank::Subfamily)
    } else if s == "genus"@ {
        Some(Rank::Genus)
    } else if s == "species"@ {
        Some(Rank::Species)
    } else {
        None
    }
}

/// Compares two string slices character by character.
fn str_eq(a: &str, b: &str) -> (r: bool)
    ensures
        r == (a@ == b@),
{
    let alen = a.unicode_len();
    let blen = b.unicode_len();
    if alen != blen {
        assert(a@ != b@) by {
            assert(a@.len() != b@.len());
        }
        return false;
    }
    let mut i: usize = 0;
    while i < alen
        invariant
            i <= alen,
            alen == a@.len(),
            alen == b@.len(),
            forall|k: int| 0 <= k < i ==> a@[k] == b@[k],
        decreases alen - i,
    {
        if a.get_char(i) != b.get_char(i) {
            return false;
        }
        i += 1;
    }
    proof {
        assert(a@ =~= b@);
    }
    true
}

/// Parses a rank string; any string outside the eight rank names is invalid,
/// and taxon creation rejects it with a validation error.
pub fn parse_rank(s: &str) -> (r: Option<Rank>)
    ensures
        r == spec_rank_of(s@),
{
    if str_eq(s, "kingdom") {
        Some(Rank::Kingdom)
    } else if str_eq(s, "phylum") {
        Some(Rank::Phylum)
    } else if str_eq(s, "class") {
        Some(Rank::Class)
    } else if str_eq(s, "order") {
        Some(Rank::Order)
    } else if str_eq(s, "family") {
        Some(Rank::Family)
    } else if str_eq(s, "subfamily") {
        Some(Rank::Subfamily)
    } else if str_eq(s, "genus") {
        Some(Rank::Genus)
    } else if str_eq(s, "species") {
        Some(Rank::Species)
    } else {
        None
    }
}

/// The ordered list of fields significant at a rank: every field from kingdom
/// through the rank's own field, coarsest first, per the rank table.
pub fn significant_fields(r: Rank) -> (v: Vec<Field>)
    ensures
        v@.len() == rank_index(r) + 1,
        forall|i: int| 0 <= i < v@.len() ==> #[trigger] field_index(v@[i]) == i,
        forall|f: Field| significant(r, f) <==> exists|i: int|
            0 <= i < v@.len() && v@[i] == f,
{
    let all: Vec<Field> = vec![
        Field::Kingdom,
        Field::Phylum,
        Field::Class,
        Field::Order,
        Field::Family,
        Field::Subfamily,
        Field::Genus,
        Field::SpeciesEpithet,
    ];
    let n: usize = match r {
        Rank::Kingdom => 1,
        Rank::Phylum => 2,
        Rank::Class => 3,
        Rank::Order => 4,
        Rank::Family => 5,
        Rank::Subfamily => 6,
        Rank::Genus => 7,
        Rank::Species => 8,
    };
    let mut v: Vec<Field> = Vec::new();
    let mut i: usize = 0;
    while i < n
        invariant
            i <= n,
            n == rank_index(r) + 1,
            all@.len() == 8,
            forall|k: int| 0 <= k < 8 ==> #[trigger] field_index(all@[k]) == k,
            v@ == all@.take(i as int),
        decreases n - i,
    {
        v.push(all[i]);
        assert(v@ =~= all@.take(i + 1 as int));
        i += 1;
    }
    proof {
        assert(forall|i: int| 0 <= i < v@.len() ==> #[trigger] field_index(v@[i]) == i);
        assert(forall|f: Field| significant(r, f) ==> exists|i: int|
            0 <= i < v@.len() && v@[i] == f) by {
            assert(forall|f: Field| #[trigger] field_index(f) <= rank_index(r) ==> v@[field_index(f)] == f);
        }
    }
    v
}

} // verus!
