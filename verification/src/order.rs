//! The order query results come back in: hierarchical queries return
//! sightings and trips descending by date with ties broken by descending id,
//! and a trip's sightings come back ascending by id. An absent date sorts
//! below every present one, so descending order puts undated rows last.

use vstd::prelude::*;
use crate::models::{Sighting, Trip, opt_view};

verus! {

/// Text ordering by code point, the order the storage engine compares text
/// in; a proper prefix comes first.
pub open spec fn text_le(a: Seq<char>, b: Seq<char>) -> bool
    decreases a.len(),
{
    if a.len() == 0 {
        true
    } else if b.len() == 0 {
        false
    } else if (a[0] as u32) < (b[0] as u32) {
        true
    } else if (a[0] as u32) > (b[0] as u32) {
        false
    } else {
        text_le(a.drop_first(), b.drop_first())
    }
}

/// Ordering on an optional text key with the absent value smallest.
pub open spec fn opt_text_le(a: Option<Seq<char>>, b: Option<Seq<char>>) -> bool {
    match (a, b) {
        (Option::None, _) => true,
        (Option::Some(x), Option::None) => false,
        (Option::Some(x), Option::Some(y)) => text_le(x, y),
    }
}

/// `x` comes no later than `y` in a sighting query's result: descending by
/// date, ties broken by descending id.
pub open spec fn sighting_query_le(x: Sighting, y: Sighting) -> bool {
    if opt_view(x.date) == opt_view(y.date) {
        y.id <= x.id
    } else {
        opt_text_le(opt_view(y.date), opt_view(x.date))
    }
}

/// `x` comes no later than `y` in a trip query's result: descending by
/// date, ties broken by descending id.
pub open spec fn trip_query_le(x: Trip, y: Trip) -> bool {
    if opt_view(x.date) == opt_view(y.date) {
        y.id <= x.id
    } else {
        opt_text_le(opt_view(y.date), opt_view(x.date))
    }
}

/// The sightings stand in query order: descending by date, then by id.
pub open spec fn sightings_query_ordered(v: Seq<Sighting>) -> bool {
    forall|i: int, j: int| 0 <= i < j < v.len() ==> #[trigger] sighting_query_le(v[i], v[j])
}

/// The trips stand in query order: descending by date, then by id.
pub open spec fn trips_query_ordered(v: Seq<Trip>) -> bool {
    forall|i: int, j: int| 0 <= i < j < v.len() ==> #[trigger] trip_query_le(v[i], v[j])
}

} // verus!
