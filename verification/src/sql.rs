//! Trusted wrappers around the storage engine. Each wrapper runs one fixed
//! SQL statement through rusqlite; everything around the calls — validation,
//! predicate building, snapshotting, filtering, de-duplication — is verified
//! code in the other modules. The wrappers' contracts state only what the
//! statements visibly guarantee; nothing is promised about what is on disk.

use vstd::prelude::*;
use rusqlite::Connection;
use rusqlite::OptionalExtension;
use crate::hierarchy::{Constraint, clause_of};
use crate::models::{NewSighting, Sighting, Taxon, Trip};
use crate::order::{sightings_query_ordered, trips_query_ordered};

verus! {

#[verifier::external_type_specification]
#[verifier::external_body]
pub struct ExConnection(Connection);

#[verifier::external_type_specification]
#[verifier::external_body]
pub struct ExSqliteError(rusqlite::Error);

/// Assembles a taxon from one row's columns.
fn assemble_taxon(
    id: i64,
    rank: String,
    kingdom: String,
    phylum: Option<String>,
    class: Option<String>,
    order: Option<String>,
    family: Option<String>,
    subfamily: Option<String>,
    genus: Option<String>,
    species_epithet: Option<String>,
    common_name: String,
) -> (t: Taxon)
    ensures
        t == (Taxon {
            id,
            rank,
            kingdom,
            phylum,
            class,
            order,
            family,
            subfamily,
            genus,
            species_epithet,
            common_name,
        }),
{
    Taxon { id, rank, kingdom, phylum, class, order, family, subfamily, genus, species_epithet, common_name }
}

/// Assembles a sighting from one row's columns.
fn assemble_sighting(
    id: i64,
    trip_id: Option<i64>,
    taxon_id: i64,
    kingdom: String,
    phylum: Option<String>,
    class: Option<String>,
    order: Option<String>,
    family: Option<String>,
    subfamily: Option<String>,
    genus: Option<String>,
    species_epithet: Option<String>,
    common_name: String,
    notes: Option<String>,
    media_path: Option<String>,
    date: Option<String>,
    location: Option<String>,
) -> (s: Sighting)
    ensures
        s == (Sighting {
            id,
            trip_id,
            taxon_id,
            kingdom,
            phylum,
            class,
            order,
            family,
            subfamily,
            genus,
            species_epithet,
            common_name,
            notes,
            media_path,
            date,
            location,
        }),
{
    Sighting {
        id,
        trip_id,
        taxon_id,
        kingdom,
        phylum,
        class,
        order,
        family,
        subfamily,
        genus,
        species_epithet,
        common_name,
        notes,
        media_path,
        date,
        location,
    }
}

/// Relies on `rusqlite::Connection::execute` running one `INSERT INTO taxa`
/// with the given values bound in order, and on
/// `Connection::last_insert_rowid` returning the id of that insert. The
/// statement supplies no id, so the engine assigns one — 1 for an empty
/// table, otherwise one past the largest in use — which is positive on a
/// table whose ids are always engine-assigned, as this library's are.
#[verifier::external_body]
pub(crate) fn insert_taxon_row(
    conn: &Connection,
    rank: &str,
    kingdom: &str,
    phylum: Option<&str>,
    class: Option<&str>,
    order: Option<&str>,
    family: Option<&str>,
    subfamily: Option<&str>,
    genus: Option<&str>,
    species_epithet: Option<&str>,
    common_name: &str,
) -> (r: Result<i64, rusqlite::Error>)
    ensures
        r matches Ok(id) ==> id >= 1,
{
    conn.execute(
        "INSERT INTO taxa (rank, kingdom, phylum, class, \"order\", family, subfamily, genus, species_epithet, common_name) VALUES (?1, ?2, ?3, ?4, ?5, ?6, ?7, ?8, ?9, ?10)",
        (rank, kingdom, phylum, class, order, family, subfamily, genus, species_epithet, common_name),
    )?;
    Ok(conn.last_insert_rowid())
}

/// Relies on `rusqlite::Connection::query_row` with
/// `OptionalExtension::optional` running one `SELECT ... FROM taxa WHERE id
/// = ?1`: a returned row carries the requested id.
#[verifier::external_body]
pub(crate) fn select_taxon_row(conn: &Connection, id: i64) -> (r: Result<
    Option<Taxon>,
    rusqlite::Error,
>)
    ensures
        r matches Ok(Some(t)) ==> t.id == id,
{
    conn.query_row(
        "SELECT id, rank, kingdom, phylum, class, \"order\", family, subfamily, genus, species_epithet, common_name FROM taxa WHERE id = ?1",
        (id,),
        |row| Ok(assemble_taxon(row.get(0)?, row.get(1)?, row.get(2)?, row.get(3)?, row.get(4)?,
            row.get(5)?, row.get(6)?, row.get(7)?, row.get(8)?, row.get(9)?, row.get(10)?)),
    ).optional()
}

/// Relies on `rusqlite::Connection::execute` running one `DELETE FROM taxa
/// WHERE id = ?1` and returning the affected row count; `id` is the table's
/// integer primary key, so at most one row is affected.
#[verifier::external_body]
pub(crate) fn delete_taxon_row(conn: &Connection, id: i64) -> (r: Result<usize, rusqlite::Error>)
    ensures
        r matches Ok(n) ==> n <= 1,
{
    conn.execute("DELETE FROM taxa WHERE id = ?1", (id,))
}

/// Relies on `rusqlite::Connection::execute` running one `INSERT INTO trips`
/// with the given values bound in order, and on
/// `Connection::last_insert_rowid` returning the id of that insert; as for
/// taxa, the engine-assigned id is positive.
#[verifier::external_body]
pub(crate) fn insert_trip_row(
    conn: &Connection,
    name: &str,
    date: Option<&str>,
    location: Option<&str>,
    notes: Option<&str>,
) -> (r: Result<i64, rusqlite::Error>)
    ensures
        r matches Ok(id) ==> id >= 1,
{
    conn.execute(
        "INSERT INTO trips (name, date, location, notes) VALUES (?1, ?2, ?3, ?4)",
        (name, date, location, notes),
    )?;
    Ok(conn.last_insert_rowid())
}

/// Relies on `rusqlite::Connection::query_row` with
/// `OptionalExtension::optional` running one `SELECT ... FROM trips WHERE id
/// = ?1`: a returned row carries the requested id.
#[verifier::external_body]
pub(crate) fn select_trip_row(conn: &Connection, id: i64) -> (r: Result<
    Option<Trip>,
    rusqlite::Error,
>)
    ensures
        r matches Ok(Some(t)) ==> t.id == id,
{
    conn.query_row(
        "SELECT id, name, date, location, notes FROM trips WHERE id = ?1",
        (id,),
        |row| Ok(Trip { id: row.get(0)?, name: row.get(1)?, date: row.get(2)?,
            location: row.get(3)?, notes: row.get(4)? }),
    ).optional()
}

/// Relies on `rusqlite::Connection::execute` running one `DELETE FROM trips
/// WHERE id = ?1` and returning the affected row count; `id` is the table's
/// integer primary key, so at most one row is affected.
#[verifier::external_body]
pub(crate) fn delete_trip_row(conn: &Connection, id: i64) -> (r: Result<usize, rusqlite::Error>)
    ensures
        r matches Ok(n) ==> n <= 1,
{
    conn.execute("DELETE FROM trips WHERE id = ?1", (id,))
}

/// Relies on `rusqlite::Connection::execute` running one `INSERT INTO
/// sightings` with exactly the record's fields bound in order, and on
/// `Connection::last_insert_rowid` returning the id of that insert; as for
/// taxa, the engine-assigned id is positive.
#[verifier::external_body]
pub(crate) fn insert_sighting_row(conn: &Connection, s: &NewSighting) -> (r: Result<
    i64,
    rusqlite::Error,
>)
    ensures
        r matches Ok(id) ==> id >= 1,
{
    conn.execute(
        "INSERT INTO sightings (trip_id, taxon_id, kingdom, phylum, class, \"order\", family, subfamily, genus, species_epithet, common_name, notes, media_path, date, location) VALUES (?1, ?2, ?3, ?4, ?5, ?6, ?7, ?8, ?9, ?10, ?11, ?12, ?13, ?14, ?15)",
        (&s.trip_id, &s.taxon_id, &s.kingdom, &s.phylum, &s.class, &s.order, &s.family,
            &s.subfamily, &s.genus, &s.species_epithet, &s.common_name, &s.notes, &s.media_path, &s.date, &s.location),
    )?;
    Ok(conn.last_insert_rowid())
}

/// Relies on `rusqlite::Connection::query_row` with
/// `OptionalExtension::optional` running one `SELECT ... FROM sightings
/// WHERE id = ?1`: a returned row carries the requested id.
#[verifier::external_body]
pub(crate) fn select_sighting_row(conn: &Connection, id: i64) -> (r: Result<
    Option<Sighting>,
    rusqlite::Error,
>)
    ensures
        r matches Ok(Some(s)) ==> s.id == id,
{
    conn.query_row(
        "SELECT id, trip_id, taxon_id, kingdom, phylum, class, \"order\", family, subfamily, genus, species_epithet, common_name, notes, media_path, date, location FROM sightings WHERE id = ?1",
        (id,),
        |row| Ok(assemble_sighting(row.get(0)?, row.get(1)?, row.get(2)?, row.get(3)?, row.get(4)?,
            row.get(5)?, row.get(6)?, row.get(7)?, row.get(8)?, row.get(9)?, row.get(10)?,
            row.get(11)?, row.get(12)?, row.get(13)?, row.get(14)?, row.get(15)?)),
    ).optional()
}

/// Relies on `rusqlite::Connection::execute` running one `DELETE FROM
/// sightings WHERE id = ?1` and returning the affected row count; `id` is
/// the table's integer primary key, so at most one row is affected.
#[verifier::external_body]
pub(crate) fn delete_sighting_row(conn: &Connection, id: i64) -> (r: Result<
    usize,
    rusqlite::Error,
>)
    ensures
        r matches Ok(n) ==> n <= 1,
{
    conn.execute("DELETE FROM sightings WHERE id = ?1", (id,))
}

/// Relies on `rusqlite::Statement::query_map` running `SELECT ... FROM
/// sightings WHERE <clause> ORDER BY date DESC, id DESC` with the given
/// parameters bound in order. The clause must be the compilation of a
/// constraint list — bare column-equality tests joined with `AND`, which
/// cannot displace the statement's `ORDER BY` — and nothing is promised
/// about which rows come back: only that they stand in the statement's
/// order, descending by date (absent dates last, as storage sorts them
/// below every value) with ties broken by descending id. A single-table
/// `SELECT` visits each row once, and `id` is the table's integer primary
/// key, so no two returned rows share an id.
#[verifier::external_body]
pub(crate) fn select_sightings_where(
    conn: &Connection,
    clause: &str,
    params: &Vec<String>,
) -> (r: Result<Vec<Sighting>, rusqlite::Error>)
    requires
        exists|cs: Seq<Constraint>| clause@ == clause_of(cs, ""@),
    ensures
        r matches Ok(v) ==> sightings_query_ordered(v@),
        r matches Ok(v) ==> crate::models::sightings_distinct_ids(v@),
{
    let sql = format!(
        "SELECT id, trip_id, taxon_id, kingdom, phylum, class, \"order\", family, subfamily, genus, species_epithet, common_name, notes, media_path, date, location FROM sightings WHERE {} ORDER BY date DESC, id DESC",
        clause,
    );
    let mut stmt = conn.prepare(&sql)?;
    let rows = stmt.query_map(rusqlite::params_from_iter(params.iter()), |row| {
        Ok(assemble_sighting(row.get(0)?, row.get(1)?, row.get(2)?, row.get(3)?, row.get(4)?,
            row.get(5)?, row.get(6)?, row.get(7)?, row.get(8)?, row.get(9)?, row.get(10)?,
            row.get(11)?, row.get(12)?, row.get(13)?, row.get(14)?, row.get(15)?))
    })?;
    rows.collect()
}

/// Relies on `rusqlite::Statement::query_map` running `SELECT DISTINCT
/// trips... INNER JOIN sightings ON sightings.trip_id = trips.id WHERE
/// <clause> ORDER BY trips.date DESC, trips.id DESC` with the given
/// parameters bound in order. The clause must be the compilation of a
/// constraint list against the joined sighting columns — bare
/// column-equality tests joined with `AND`, which cannot displace the
/// statement's `ORDER BY` — and nothing is promised about which rows come
/// back: only that they stand in the statement's order, descending by date
/// (absent dates last) with ties broken by descending id.
#[verifier::external_body]
pub(crate) fn select_trips_joined_where(
    conn: &Connection,
    clause: &str,
    params: &Vec<String>,
) -> (r: Result<Vec<Trip>, rusqlite::Error>)
    requires
        exists|cs: Seq<Constraint>| clause@ == clause_of(cs, "sightings."@),
    ensures
        r matches Ok(v) ==> trips_query_ordered(v@),
{
    let sql = format!(
        "SELECT DISTINCT trips.id, trips.name, trips.date, trips.location, trips.notes FROM trips INNER JOIN sightings ON sightings.trip_id = trips.id WHERE {} ORDER BY trips.date DESC, trips.id DESC",
        clause,
    );
    let mut stmt = conn.prepare(&sql)?;
    let rows = stmt.query_map(rusqlite::params_from_iter(params.iter()), |row| {
        Ok(Trip { id: row.get(0)?, name: row.get(1)?, date: row.get(2)?,
            location: row.get(3)?, notes: row.get(4)? })
    })?;
    rows.collect()
}

/// Relies on `rusqlite::Statement::query_map` running one `SELECT ... FROM
/// sightings WHERE trip_id = ?1 ORDER BY id ASC`: every returned row carries
/// the requested trip id, and the rows stand in strictly ascending id order
/// — `id` is the table's integer primary key, so a single-table `SELECT`
/// yields each id at most once.
#[verifier::external_body]
pub(crate) fn select_sightings_of_trip(conn: &Connection, trip_id: i64) -> (r: Result<
    Vec<Sighting>,
    rusqlite::Error,
>)
    ensures
        r matches Ok(v) ==> forall|i: int|
            0 <= i < v@.len() ==> (#[trigger] v@[i]).trip_id == Some(trip_id),
        r matches Ok(v) ==> forall|i: int, j: int|
            0 <= i < j < v@.len() ==> v@[i].id < v@[j].id,
{
    let mut stmt = conn.prepare(
        "SELECT id, trip_id, taxon_id, kingdom, phylum, class, \"order\", family, subfamily, genus, species_epithet, common_name, notes, media_path, date, location FROM sightings WHERE trip_id = ?1 ORDER BY id ASC",
    )?;
    let rows = stmt.query_map((trip_id,), |row| {
        Ok(assemble_sighting(row.get(0)?, row.get(1)?, row.get(2)?, row.get(3)?, row.get(4)?,
            row.get(5)?, row.get(6)?, row.get(7)?, row.get(8)?, row.get(9)?, row.get(10)?,
            row.get(11)?, row.get(12)?, row.get(13)?, row.get(14)?, row.get(15)?))
    })?;
    rows.collect()
}

/// Relies on `rusqlite::Statement::query_map` running one `SELECT DISTINCT
/// trips... INNER JOIN sightings ON sightings.trip_id = trips.id WHERE
/// sightings.taxon_id = ?1 ORDER BY trips.date DESC, trips.id DESC`: rows
/// stand in the statement's order, descending by date (absent dates last)
/// with ties broken by descending id.
#[verifier::external_body]
pub(crate) fn select_trips_of_taxon_id(conn: &Connection, taxon_id: i64) -> (r: Result<
    Vec<Trip>,
    rusqlite::Error,
>)
    ensures
        r matches Ok(v) ==> trips_query_ordered(v@),
{
    let mut stmt = conn.prepare(
        "SELECT DISTINCT trips.id, trips.name, trips.date, trips.location, trips.notes FROM trips INNER JOIN sightings ON sightings.trip_id = trips.id WHERE sightings.taxon_id = ?1 ORDER BY trips.date DESC, trips.id DESC",
    )?;
    let rows = stmt.query_map((taxon_id,), |row| {
        Ok(Trip { id: row.get(0)?, name: row.get(1)?, date: row.get(2)?,
            location: row.get(3)?, notes: row.get(4)? })
    })?;
    rows.collect()
}

/// Relies on `rusqlite::Statement::query_map` running the fixed sightings
/// substring-search `SELECT` — every searchable column `LIKE ?1` — with
/// `LIMIT 100`: at most 100 rows come back.
#[verifier::external_body]
pub(crate) fn search_sighting_rows(conn: &Connection, pattern: &str) -> (r: Result<
    Vec<Sighting>,
    rusqlite::Error,
>)
    ensures
        r matches Ok(v) ==> v@.len() <= 100,
{
    let mut stmt = conn.prepare(
        "SELECT id, trip_id, taxon_id, kingdom, phylum, class, \"order\", family, subfamily, genus, species_epithet, common_name, notes, media_path, date, location FROM sightings WHERE kingdom LIKE ?1 OR phylum LIKE ?1 OR class LIKE ?1 OR \"order\" LIKE ?1 OR family LIKE ?1 OR subfamily LIKE ?1 OR genus LIKE ?1 OR species_epithet LIKE ?1 OR common_name LIKE ?1 OR date LIKE ?1 OR location LIKE ?1 LIMIT 100",
    )?;
    let rows = stmt.query_map((pattern,), |row| {
        Ok(assemble_sighting(row.get(0)?, row.get(1)?, row.get(2)?, row.get(3)?, row.get(4)?,
            row.get(5)?, row.get(6)?, row.get(7)?, row.get(8)?, row.get(9)?, row.get(10)?,
            row.get(11)?, row.get(12)?, row.get(13)?, row.get(14)?, row.get(15)?))
    })?;
    rows.collect()
}

/// Relies on `rusqlite::Statement::query_map` running the fixed taxa
/// substring-search `SELECT` — every searchable column `LIKE ?1` — with
/// `LIMIT 100`: at most 100 rows come back.
#[verifier::external_body]
pub(crate) fn search_taxon_rows(conn: &Connection, pattern: &str) -> (r: Result<
    Vec<Taxon>,
    rusqlite::Error,
>)
    ensures
        r matches Ok(v) ==> v@.len() <= 100,
{
    let mut stmt = conn.prepare(
        "SELECT id, rank, kingdom, phylum, class, \"order\", family, subfamily, genus, species_epithet, common_name FROM taxa WHERE kingdom LIKE ?1 OR phylum LIKE ?1 OR class LIKE ?1 OR \"order\" LIKE ?1 OR family LIKE ?1 OR subfamily LIKE ?1 OR genus LIKE ?1 OR species_epithet LIKE ?1 OR common_name LIKE ?1 LIMIT 100",
    )?;
    let rows = stmt.query_map((pattern,), |row| {
        Ok(assemble_taxon(row.get(0)?, row.get(1)?, row.get(2)?, row.get(3)?, row.get(4)?,
            row.get(5)?, row.get(6)?, row.get(7)?, row.get(8)?, row.get(9)?, row.get(10)?))
    })?;
    rows.collect()
}

/// Relies on `rusqlite::Statement::query_map` running the fixed trips
/// substring-search `SELECT DISTINCT` — the trip's own name, location and
/// date plus, through a join, the classification of its sightings, each
/// `LIKE ?1` — with `LIMIT 100`: at most 100 rows come back.
#[verifier::external_body]
pub(crate) fn search_trip_rows(conn: &Connection, pattern: &str) -> (r: Result<
    Vec<Trip>,
    rusqlite::Error,
>)
    ensures
        r matches Ok(v) ==> v@.len() <= 100,
{
    let mut stmt = conn.prepare(
        "SELECT DISTINCT trips.id, trips.name, trips.date, trips.location, trips.notes FROM trips LEFT JOIN sightings ON sightings.trip_id = trips.id WHERE (trips.name LIKE ?1 OR trips.location LIKE ?1 OR sightings.kingdom LIKE ?1 OR sightings.phylum LIKE ?1 OR sightings.class LIKE ?1 OR sightings.\"order\" LIKE ?1 OR sightings.family LIKE ?1 OR sightings.subfamily LIKE ?1 OR sightings.genus LIKE ?1 OR sightings.species_epithet LIKE ?1 OR sightings.common_name LIKE ?1 OR trips.date LIKE ?1) LIMIT 100",
    )?;
    let rows = stmt.query_map((pattern,), |row| {
        Ok(Trip { id: row.get(0)?, name: row.get(1)?, date: row.get(2)?,
            location: row.get(3)?, notes: row.get(4)? })
    })?;
    rows.collect()
}

/// Relies on `rusqlite::Error`'s `Display` implementation to describe a
/// storage failure.
#[verifier::external_body]
pub(crate) fn error_text(e: &rusqlite::Error) -> (r: String)
{
    e.to_string()
}

} // verus!
