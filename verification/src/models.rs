//! The three record types of the log — taxa, trips, and sightings — plus the
//! record a sighting is created from, and the error kinds every operation
//! can surface.

use vstd::prelude::*;
use vstd::string::StringExecFns;
use crate::rank::Field;

verus! {

/// A taxonomic classification. `kingdom` is always present; the finer fields
/// are optional, and `rank` names the level this taxon classifies down to.
/// Taxa are immutable once created.
#[derive(Debug)]
pub struct Taxon {
    pub id: i64,
    pub rank: String,
    pub kingdom: String,
    pub phylum: Option<String>,
    pub class: Option<String>,
    pub order: Option<String>,
    pub family: Option<String>,
    pub subfamily: Option<String>,
    pub genus: Option<String>,
    pub species_epithet: Option<String>,
    pub common_name: String,
}

/// An outing during which sightings may have been recorded. Independent of
/// taxonomy; sightings point at trips by id, weakly.
#[derive(Debug)]
pub struct Trip {
    pub id: i64,
    pub name: String,
    pub date: Option<String>,
    pub location: Option<String>,
    pub notes: Option<String>,
}

/// One observation. The classification fields and the common name are a
/// frozen copy of the referenced taxon's fields, taken when the sighting was
/// created; they are never recomputed, and deleting the taxon leaves them.
#[derive(Debug)]
pub struct Sighting {
    pub id: i64,
    pub trip_id: Option<i64>,
    pub taxon_id: i64,
    pub kingdom: String,
    pub phylum: Option<String>,
    pub class: Option<String>,
    pub order: Option<String>,
    pub family: Option<String>,
    pub subfamily: Option<String>,
    pub genus: Option<String>,
    pub species_epithet: Option<String>,
    pub common_name: String,
    pub notes: Option<String>,
    pub media_path: Option<String>,
    pub date: Option<String>,
    pub location: Option<String>,
}

/// A sighting as handed to storage: everything but the generated id.
#[derive(Debug)]
pub struct NewSighting {
    pub trip_id: Option<i64>,
    pub taxon_id: i64,
    pub kingdom: String,
    pub phylum: Option<String>,
    pub class: Option<String>,
    pub order: Option<String>,
    pub family: Option<String>,
    pub subfamily: Option<String>,
    pub genus: Option<String>,
    pub species_epithet: Option<String>,
    pub common_name: String,
    pub notes: Option<String>,
    pub media_path: Option<String>,
    pub date: Option<String>,
    pub location: Option<String>,
}

/// The error kinds an operation can return.
#[derive(Debug)]
pub enum OpError {
    /// Rejected before any storage access: a blank search query, or an
    /// unrecognized rank string at taxon creation.
    Validation(String),
    /// A lookup by id found no row.
    NotFound,
    /// A sighting was created against a taxon or trip id that does not exist.
    Referential(String),
    /// The storage engine failed.
    Storage(String),
}

impl OpError {
    /// A short description, for front ends to display.
    pub fn message(&self) -> String {
        match self {
            OpError::Validation(m) => String::from_str("invalid input: ").concat(m.as_str()),
            OpError::NotFound => String::from_str("not found"),
            OpError::Referential(m) => String::from_str("missing reference: ").concat(m.as_str()),
            OpError::Storage(m) => String::from_str("storage error: ").concat(m.as_str()),
        }
    }
}

/// Clones an optional text field, preserving it exactly.
pub fn clone_opt(o: &Option<String>) -> (r: Option<String>)
    ensures
        r == *o,
{
    match o {
        Some(s) => Some(s.clone()),
        None => None,
    }
}

impl Clone for Taxon {
    fn clone(&self) -> (res: Self)
        ensures
            res == *self,
    {
        Taxon {
            id: self.id,
            rank: self.rank.clone(),
            kingdom: self.kingdom.clone(),
            phylum: clone_opt(&self.phylum),
            class: clone_opt(&self.class),
            order: clone_opt(&self.order),
            family: clone_opt(&self.family),
            subfamily: clone_opt(&self.subfamily),
            genus: clone_opt(&self.genus),
            species_epithet: clone_opt(&self.species_epithet),
            common_name: self.common_name.clone(),
        }
    }
}

impl Clone for Trip {
    fn clone(&self) -> (res: Self)
        ensures
            res == *self,
    {
        Trip {
            id: self.id,
            name: self.name.clone(),
            date: clone_opt(&self.date),
            location: clone_opt(&self.location),
            notes: clone_opt(&self.notes),
        }
    }
}

impl Clone for Sighting {
    fn clone(&self) -> (res: Self)
        ensures
            res == *self,
    {
        Sighting {
            id: self.id,
            trip_id: self.trip_id,
            taxon_id: self.taxon_id,
            kingdom: self.kingdom.clone(),
            phylum: clone_opt(&self.phylum),
            class: clone_opt(&self.class),
            order: clone_opt(&self.order),
            family: clone_opt(&self.family),
            subfamily: clone_opt(&self.subfamily),
            genus: clone_opt(&self.genus),
            species_epithet: clone_opt(&self.species_epithet),
            common_name: self.common_name.clone(),
            notes: clone_opt(&self.notes),
            media_path: clone_opt(&self.media_path),
            date: clone_opt(&self.date),
            location: clone_opt(&self.location),
        }
    }
}

/// The view of an optional text field.
pub open spec fn opt_view(o: Option<String>) -> Option<Seq<char>> {
    match o {
        Some(s) => Some(s@),
        None => None,
    }
}

/// A taxon's value at a classification field; the kingdom field is always
/// present.
pub open spec fn taxon_field(t: Taxon, f: Field) -> Option<Seq<char>> {
    match f {
        Field::Kingdom => Some(t.kingdom@),
        Field::Phylum => opt_view(t.phylum),
        Field::Class => opt_view(t.class),
        Field::Order => opt_view(t.order),
        Field::Family => opt_view(t.family),
        Field::Subfamily => opt_view(t.subfamily),
        Field::Genus => opt_view(t.genus),
        Field::SpeciesEpithet => opt_view(t.species_epithet),
    }
}

/// No two of the sightings carry the same id.
pub open spec fn sightings_distinct_ids(v: Seq<Sighting>) -> bool {
    forall|i: int, j: int| 0 <= i < j < v.len() ==> v[i].id != v[j].id
}

/// A sighting's denormalized value at a classification field.
pub open spec fn sighting_field(s: Sighting, f: Field) -> Option<Seq<char>> {
    match f {
        Field::Kingdom => Some(s.kingdom@),
        Field::Phylum => opt_view(s.phylum),
        Field::Class => opt_view(s.class),
        Field::Order => opt_view(s.order),
        Field::Family => opt_view(s.family),
        Field::Subfamily => opt_view(s.subfamily),
        Field::Genus => opt_view(s.genus),
        Field::SpeciesEpithet => opt_view(s.species_epithet),
    }
}

/// A new sighting's denormalized value at a classification field.
pub open spec fn new_sighting_field(s: NewSighting, f: Field) -> Option<Seq<char>> {
    match f {
        Field::Kingdom => Some(s.kingdom@),
        Field::Phylum => opt_view(s.phylum),
        Field::Class => opt_view(s.class),
        Field::Order => opt_view(s.order),
        Field::Family => opt_view(s.family),
        Field::Subfamily => opt_view(s.subfamily),
        Field::Genus => opt_view(s.genus),
        Field::SpeciesEpithet => opt_view(s.species_epithet),
    }
}

/// A path segment: a separator plus the value, or nothing for an absent
/// field.
pub open spec fn path_segment(o: Option<String>) -> Seq<char> {
    match o {
        Some(s) => "/"@ + s@,
        None => Seq::empty(),
    }
}

/// The classification path of a taxon: its populated fields from kingdom
/// down, joined with a separator.
pub open spec fn taxon_path(t: Taxon) -> Seq<char> {
    t.kingdom@ + path_segment(t.phylum) + path_segment(t.class) + path_segment(t.order)
        + path_segment(t.family) + path_segment(t.subfamily) + path_segment(t.genus)
        + path_segment(t.species_epithet)
}

/// The classification path of a sighting's denormalized copy; the subfamily
/// is not part of a sighting's displayed path.
pub open spec fn sighting_path(s: Sighting) -> Seq<char> {
    s.kingdom@ + path_segment(s.phylum) + path_segment(s.class) + path_segment(s.order)
        + path_segment(s.family) + path_segment(s.genus) + path_segment(s.species_epithet)
}

fn append_segment(r: &mut String, o: &Option<String>)
    ensures
        final(r)@ == old(r)@ + path_segment(*o),
{
    match o {
        Some(s) => {
            r.append("/");
            r.append(s.as_str());
            proof {
                assert(r@ =~= old(r)@ + path_segment(*o));
            }
        },
        None => {
            proof {
                assert(r@ =~= old(r)@ + path_segment(*o));
            }
        },
    }
}

impl Taxon {
    /// The populated classification fields, coarsest first, joined with a
    /// separator, for display.
    pub fn classification_path(&self) -> (r: String)
        ensures
            r@ == taxon_path(*self),
    {
        let mut r = self.kingdom.clone();
        append_segment(&mut r, &self.phylum);
        append_segment(&mut r, &self.class);
        append_segment(&mut r, &self.order);
        append_segment(&mut r, &self.family);
        append_segment(&mut r, &self.subfamily);
        append_segment(&mut r, &self.genus);
        append_segment(&mut r, &self.species_epithet);
        proof {
            assert(r@ =~= taxon_path(*self));
        }
        r
    }
}

impl Sighting {
    /// The populated denormalized classification fields, coarsest first,
    /// joined with a separator, for display.
    pub fn classification_path(&self) -> (r: String)
        ensures
            r@ == sighting_path(*self),
    {
        let mut r = self.kingdom.clone();
        append_segment(&mut r, &self.phylum);
        append_segment(&mut r, &self.class);
        append_segment(&mut r, &self.order);
        append_segment(&mut r, &self.family);
        append_segment(&mut r, &self.genus);
        append_segment(&mut r, &self.species_epithet);
        proof {
            assert(r@ =~= sighting_path(*self));
        }
        r
    }
}

/// Borrows a taxon's value at a field.
pub fn taxon_field_get<'a>(t: &'a Taxon, f: Field) -> (r: Option<&'a String>)
    ensures
        match r {
            Some(s) => taxon_field(*t, f) == Some(s@),
            None => taxon_field(*t, f) is None,
        },
{
    match f {
        Field::Kingdom => Some(&t.kingdom),
        Field::Phylum => t.phylum.as_ref(),
        Field::Class => t.class.as_ref(),
        Field::Order => t.order.as_ref(),
        Field::Family => t.family.as_ref(),
        Field::Subfamily => t.subfamily.as_ref(),
        Field::Genus => t.genus.as_ref(),
        Field::SpeciesEpithet => t.species_epithet.as_ref(),
    }
}

/// Borrows a sighting's denormalized value at a field.
pub fn sighting_field_get<'a>(s: &'a Sighting, f: Field) -> (r: Option<&'a String>)
    ensures
        match r {
            Some(x) => sighting_field(*s, f) == Some(x@),
            None => sighting_field(*s, f) is None,
        },
{
    match f {
        Field::Kingdom => Some(&s.kingdom),
        Field::Phylum => s.phylum.as_ref(),
        Field::Class => s.class.as_ref(),
        Field::Order => s.order.as_ref(),
        Field::Family => s.family.as_ref(),
        Field::Subfamily => s.subfamily.as_ref(),
        Field::Genus => s.genus.as_ref(),
        Field::SpeciesEpithet => s.species_epithet.as_ref(),
    }
}

} // verus!
