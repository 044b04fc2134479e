//! The denormalizing write path: when a sighting is created, every
//! classification field and the common name of the referenced taxon are
//! copied verbatim onto the sighting record, absent values included, as a
//! frozen snapshot taken at creation time.

use vstd::prelude::*;
use crate::models::{NewSighting, Taxon, new_sighting_field, taxon_field, clone_opt};
use crate::rank::Field;

verus! {

/// Builds the record a sighting is inserted from: the caller-supplied
/// non-taxonomic fields, plus a verbatim copy of the taxon's classification
/// and common name. Every classification field of the record equals the
/// taxon's, populated or not, and the caller's fields are passed through
/// unchanged.
pub fn denormalize_sighting(
    t: &Taxon,
    trip_id: Option<i64>,
    notes: Option<String>,
    media_path: Option<String>,
    date: Option<String>,
    location: Option<String>,
) -> (s: NewSighting)
    ensures
        s.taxon_id == t.id,
        forall|f: Field| #[trigger] new_sighting_field(s, f) == taxon_field(*t, f),
        s.kingdom@ == t.kingdom@,
        s.phylum == t.phylum,
        s.class == t.class,
        s.order == t.order,
        s.family == t.family,
        s.subfamily == t.subfamily,
        s.genus == t.genus,
        s.species_epithet == t.species_epithet,
        s.common_name@ == t.common_name@,
        s.trip_id == trip_id,
        s.notes == notes,
        s.media_path == media_path,
        s.date == date,
        s.location == location,
{
    NewSighting {
        trip_id,
        taxon_id: t.id,
        kingdom: t.kingdom.clone(),
        phylum: clone_opt(&t.phylum),
        class: clone_opt(&t.class),
        order: clone_opt(&t.order),
        family: clone_opt(&t.family),
        subfamily: clone_opt(&t.subfamily),
        genus: clone_opt(&t.genus),
        species_epithet: clone_opt(&t.species_epithet),
        common_name: t.common_name.clone(),
        notes,
        media_path,
        date,
        location,
    }
}

} // verus!
