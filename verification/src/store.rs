//! The operations the log exposes: create, fetch and delete for taxa, trips
//! and sightings; hierarchical queries by taxon; and substring search. Every
//! operation is a stateless request against one storage connection; inputs
//! are validated before storage is touched, and each failure is surfaced as
//! a typed error.

use vstd::prelude::*;
use vstd::string::StringExecFns;
use rusqlite::Connection;
use crate::hierarchy::{
    build_clause, build_constraints, clause_params, filter_matching, matches_taxon,
};
use crate::models::{OpError, Sighting, Taxon, Trip, opt_view};
use crate::rank::spec_rank_of;
use crate::search::{
    dedup_trips_by_id, filter_sightings_by_query, filter_taxa_by_query, sighting_matches_query,
    taxon_matches_query,
};
use crate::sql;
use crate::text::{is_blank, spec_trim, trim_query};
use crate::writepath::denormalize_sighting;

verus! {

/// The view of an optional borrowed text argument.
pub open spec fn opt_str_view(o: Option<&str>) -> Option<Seq<char>> {
    match o {
        Some(s) => Some(s@),
        None => None,
    }
}

fn opt_to_owned(o: Option<&str>) -> (r: Option<String>)
    ensures
        opt_view(r) == opt_str_view(o),
{
    match o {
        Some(s) => Some(s.to_owned()),
        None => None,
    }
}

fn storage_error(e: rusqlite::Error) -> (r: OpError)
    ensures
        r is Storage,
{
    OpError::Storage(sql::error_text(&e))
}

/// Creates a taxon. The rank string is validated here — the only place rank
/// values are validated — and an unrecognized rank is rejected before any
/// storage access; every other failure comes from storage.
pub fn create_taxon(
    conn: &Connection,
    rank: &str,
    kingdom: &str,
    phylum: Option<&str>,
    class: Option<&str>,
    order: Option<&str>,
    family: Option<&str>,
    subfamily: Option<&str>,
    genus: Option<&str>,
    species_epithet: Option<&str>,
    common_name: &str,
) -> (r: Result<i64, OpError>)
    ensures
        (r matches Err(e) && e is Validation) <==> spec_rank_of(rank@) is None,
        r matches Err(e) ==> e is Validation || e is Storage,
        r matches Ok(id) ==> id >= 1,
{
    if crate::rank::parse_rank(rank).is_none() {
        return Err(OpError::Validation(String::from_str("unrecognized rank")));
    }
    match sql::insert_taxon_row(
        conn,
        rank,
        kingdom,
        phylum,
        class,
        order,
        family,
        subfamily,
        genus,
        species_epithet,
        common_name,
    ) {
        Ok(id) => Ok(id),
        Err(e) => Err(storage_error(e)),
    }
}

/// Fetches a taxon by id; a missing row is a not-found error.
pub fn get_taxon_by_id(conn: &Connection, id: i64) -> (r: Result<Taxon, OpError>)
    ensures
        r matches Ok(t) ==> t.id == id,
        r matches Err(e) ==> e is NotFound || e is Storage,
{
    match sql::select_taxon_row(conn, id) {
        Ok(Some(t)) => Ok(t),
        Ok(None) => Err(OpError::NotFound),
        Err(e) => Err(storage_error(e)),
    }
}

/// Deletes a taxon by id, reporting the affected row count: 0 when no such
/// row existed — not an error — and 1 when it was removed.
pub fn delete_taxon(conn: &Connection, id: i64) -> (r: Result<usize, OpError>)
    ensures
        r matches Ok(n) ==> n <= 1,
        r matches Err(e) ==> e is Storage,
{
    match sql::delete_taxon_row(conn, id) {
        Ok(n) => Ok(n),
        Err(e) => Err(storage_error(e)),
    }
}

/// Creates a trip.
pub fn create_trip(
    conn: &Connection,
    name: &str,
    date: Option<&str>,
    location: Option<&str>,
    notes: Option<&str>,
) -> (r: Result<i64, OpError>)
    ensures
        r matches Err(e) ==> e is Storage,
        r matches Ok(id) ==> id >= 1,
{
    match sql::insert_trip_row(conn, name, date, location, notes) {
        Ok(id) => Ok(id),
        Err(e) => Err(storage_error(e)),
    }
}

/// Fetches a trip by id; a missing row is a not-found error.
pub fn get_trip_by_id(conn: &Connection, id: i64) -> (r: Result<Trip, OpError>)
    ensures
        r matches Ok(t) ==> t.id == id,
        r matches Err(e) ==> e is NotFound || e is Storage,
{
    match sql::select_trip_row(conn, id) {
        Ok(Some(t)) => Ok(t),
        Ok(None) => Err(OpError::NotFound),
        Err(e) => Err(storage_error(e)),
    }
}

/// Deletes a trip by id, reporting the affected row count: 0 when no such
/// row existed — not an error — and 1 when it was removed.
pub fn delete_trip(conn: &Connection, id: i64) -> (r: Result<usize, OpError>)
    ensures
        r matches Ok(n) ==> n <= 1,
        r matches Err(e) ==> e is Storage,
{
    match sql::delete_trip_row(conn, id) {
        Ok(n) => Ok(n),
        Err(e) => Err(storage_error(e)),
    }
}

/// Creates a sighting referencing an existing taxon. The taxon is looked up
/// first: if it is missing the operation aborts with a referential error and
/// no row is written. Its classification and common name are then copied
/// verbatim onto the new sighting — the frozen snapshot — together with the
/// caller's fields. A trip reference, when given, must also resolve.
pub fn create_sighting(
    conn: &Connection,
    trip_id: Option<i64>,
    taxon_id: i64,
    notes: Option<&str>,
    media_path: Option<&str>,
    date: Option<&str>,
    location: Option<&str>,
) -> (r: Result<i64, OpError>)
    ensures
        r matches Err(e) ==> e is Referential || e is Storage,
        r matches Ok(id) ==> id >= 1,
{
    let taxon = match sql::select_taxon_row(conn, taxon_id) {
        Ok(Some(t)) => t,
        Ok(None) => {
            return Err(OpError::Referential(String::from_str("no taxon with this id")));
        },
        Err(e) => {
            return Err(storage_error(e));
        },
    };
    if let Some(tid) = trip_id {
        match sql::select_trip_row(conn, tid) {
            Ok(Some(_)) => {},
            Ok(None) => {
                return Err(OpError::Referential(String::from_str("no trip with this id")));
            },
            Err(e) => {
                return Err(storage_error(e));
            },
        }
    }
    let record = denormalize_sighting(
        &taxon,
        trip_id,
        opt_to_owned(notes),
        opt_to_owned(media_path),
        opt_to_owned(date),
        opt_to_owned(location),
    );
    match sql::insert_sighting_row(conn, &record) {
        Ok(id) => Ok(id),
        Err(e) => Err(storage_error(e)),
    }
}

/// Fetches a sighting by id; a missing row is a not-found error.
pub fn get_sighting_by_id(conn: &Connection, id: i64) -> (r: Result<Sighting, OpError>)
    ensures
        r matches Ok(s) ==> s.id == id,
        r matches Err(e) ==> e is NotFound || e is Storage,
{
    match sql::select_sighting_row(conn, id) {
        Ok(Some(s)) => Ok(s),
        Ok(None) => Err(OpError::NotFound),
        Err(e) => Err(storage_error(e)),
    }
}

/// Deletes a sighting by id, reporting the affected row count: 0 when no
/// such row existed — not an error — and 1 when it was removed.
pub fn delete_sighting(conn: &Connection, id: i64) -> (r: Result<usize, OpError>)
    ensures
        r matches Ok(n) ==> n <= 1,
        r matches Err(e) ==> e is Storage,
{
    match sql::delete_sighting_row(conn, id) {
        Ok(n) => Ok(n),
        Err(e) => Err(storage_error(e)),
    }
}

/// All sightings under a taxon: the taxon's hierarchical predicate is built,
/// compiled, run by storage, and the returned rows are passed through a
/// verified filter that keeps exactly the rows satisfying the predicate —
/// so each result provably agrees with the taxon on every significant
/// populated field, and no row storage returned that does is dropped or
/// duplicated. Results come back descending by date, ties broken by
/// descending id, no two sharing an id.
pub fn get_sightings_by_taxon(conn: &Connection, taxon: &Taxon) -> (r: Result<
    Vec<Sighting>,
    OpError,
>)
    ensures
        r matches Ok(v) ==> forall|i: int|
            0 <= i < v@.len() ==> matches_taxon(#[trigger] v@[i], *taxon),
        r matches Ok(v) ==> crate::order::sightings_query_ordered(v@),
        r matches Ok(v) ==> crate::models::sightings_distinct_ids(v@),
        r matches Err(e) ==> e is Storage,
{
    let cs = build_constraints(taxon);
    let clause = build_clause(&cs, "");
    let params = clause_params(&cs);
    proof {
        assert(clause@ == crate::hierarchy::clause_of(cs@, ""@));
    }
    match sql::select_sightings_where(conn, clause.as_str(), &params) {
        Ok(rows) => {
            let kept = filter_matching(rows, &cs);
            proof {
                assert forall|i: int| 0 <= i < kept@.len() implies matches_taxon(
                    #[trigger] kept@[i],
                    *taxon,
                ) by {
                    crate::hierarchy::lemma_constraints_characterize(*taxon, cs@, kept@[i]);
                }
            }
            Ok(kept)
        },
        Err(e) => Err(storage_error(e)),
    }
}

/// All trips on which a sighting under the taxon was recorded, each trip
/// once: the same hierarchical predicate is run against the denormalized
/// sighting fields through a join, and the result is de-duplicated by id.
/// Results come back descending by date, ties broken by descending id.
pub fn get_trips_by_taxon(conn: &Connection, taxon: &Taxon) -> (r: Result<Vec<Trip>, OpError>)
    ensures
        r matches Ok(v) ==> forall|i: int, j: int|
            0 <= i < j < v@.len() ==> v@[i].id != v@[j].id,
        r matches Ok(v) ==> crate::order::trips_query_ordered(v@),
        r matches Err(e) ==> e is Storage,
{
    let cs = build_constraints(taxon);
    let clause = build_clause(&cs, "sightings.");
    let params = clause_params(&cs);
    proof {
        assert(clause@ == crate::hierarchy::clause_of(cs@, "sightings."@));
    }
    match sql::select_trips_joined_where(conn, clause.as_str(), &params) {
        Ok(rows) => Ok(dedup_trips_by_id(rows)),
        Err(e) => Err(storage_error(e)),
    }
}

/// All trips on which the exact taxon was sighted, matched by the sighting's
/// stored taxon id — not hierarchically — each trip once, descending by date
/// with ties broken by descending id.
pub fn get_trips_by_taxon_id(conn: &Connection, taxon_id: i64) -> (r: Result<Vec<Trip>, OpError>)
    ensures
        r matches Ok(v) ==> forall|i: int, j: int|
            0 <= i < j < v@.len() ==> v@[i].id != v@[j].id,
        r matches Ok(v) ==> crate::order::trips_query_ordered(v@),
        r matches Err(e) ==> e is Storage,
{
    match sql::select_trips_of_taxon_id(conn, taxon_id) {
        Ok(rows) => Ok(dedup_trips_by_id(rows)),
        Err(e) => Err(storage_error(e)),
    }
}

/// All sightings recorded on one trip, matched by the exact trip id and
/// returned in strictly ascending id order — so each sighting appears once.
pub fn get_sightings_by_trip_id(conn: &Connection, trip_id: i64) -> (r: Result<
    Vec<Sighting>,
    OpError,
>)
    ensures
        r matches Ok(v) ==> forall|i: int|
            0 <= i < v@.len() ==> (#[trigger] v@[i]).trip_id == Some(trip_id),
        r matches Ok(v) ==> forall|i: int, j: int| 0 <= i < j < v@.len() ==> v@[i].id < v@[j].id,
        r matches Err(e) ==> e is Storage,
{
    match sql::select_sightings_of_trip(conn, trip_id) {
        Ok(rows) => Ok(rows),
        Err(e) => Err(storage_error(e)),
    }
}

/// Substring search over sightings. A blank query is rejected before any
/// storage access — exactly then is a validation error returned. At most 100
/// rows come back, passed through a verified filter that keeps exactly the
/// rows containing the trimmed query in a searchable field.
pub fn run_search_sightings(conn: &Connection, query: &str) -> (r: Result<Vec<Sighting>, OpError>)
    ensures
        (r matches Err(e) && e is Validation) <==> is_blank(query@),
        r matches Err(e) ==> e is Validation || e is Storage,
        r matches Ok(v) ==> v@.len() <= 100 && forall|i: int|
            0 <= i < v@.len() ==> sighting_matches_query(#[trigger] v@[i], spec_trim(query@)),
{
    let trimmed = trim_query(query);
    if trimmed.as_str().is_empty() {
        return Err(OpError::Validation(String::from_str("empty query not allowed")));
    }
    let pattern = String::from_str("%").concat(trimmed.as_str()).concat("%");
    match sql::search_sighting_rows(conn, pattern.as_str()) {
        Ok(rows) => Ok(filter_sightings_by_query(rows, trimmed.as_str())),
        Err(e) => Err(storage_error(e)),
    }
}

/// Substring search over taxa. A blank query is rejected before any storage
/// access — exactly then is a validation error returned. At most 100 rows
/// come back, passed through a verified filter that keeps exactly the rows
/// containing the trimmed query in a searchable field.
pub fn run_search_taxa(conn: &Connection, query: &str) -> (r: Result<Vec<Taxon>, OpError>)
    ensures
        (r matches Err(e) && e is Validation) <==> is_blank(query@),
        r matches Err(e) ==> e is Validation || e is Storage,
        r matches Ok(v) ==> v@.len() <= 100 && forall|i: int|
            0 <= i < v@.len() ==> taxon_matches_query(#[trigger] v@[i], spec_trim(query@)),
{
    let trimmed = trim_query(query);
    if trimmed.as_str().is_empty() {
        return Err(OpError::Validation(String::from_str("empty query not allowed")));
    }
    let pattern = String::from_str("%").concat(trimmed.as_str()).concat("%");
    match sql::search_taxon_rows(conn, pattern.as_str()) {
        Ok(rows) => Ok(filter_taxa_by_query(rows, trimmed.as_str())),
        Err(e) => Err(storage_error(e)),
    }
}

/// Substring search over trips, matching the trip's own fields and, through
/// its sightings, their denormalized classification. A blank query is
/// rejected before any storage access — exactly then is a validation error
/// returned. At most 100 rows come back, distinct by id.
pub fn run_search_trips(conn: &Connection, query: &str) -> (r: Result<Vec<Trip>, OpError>)
    ensures
        (r matches Err(e) && e is Validation) <==> is_blank(query@),
        r matches Err(e) ==> e is Validation || e is Storage,
        r matches Ok(v) ==> v@.len() <= 100 && forall|i: int, j: int|
            0 <= i < j < v@.len() ==> v@[i].id != v@[j].id,
{
    let trimmed = trim_query(query);
    if trimmed.as_str().is_empty() {
        return Err(OpError::Validation(String::from_str("empty query not allowed")));
    }
    let pattern = String::from_str("%").concat(trimmed.as_str()).concat("%");
    match sql::search_trip_rows(conn, pattern.as_str()) {
        Ok(rows) => Ok(dedup_trips_by_id(rows)),
        Err(e) => Err(storage_error(e)),
    }
}

} // verus!
