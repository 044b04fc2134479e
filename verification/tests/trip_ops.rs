use rusqlite::Connection;
use fast_watcher::{create_sighting, create_taxon, create_trip, delete_trip, get_taxon_by_id, get_trip_by_id, get_trips_by_taxon};

const SCHEMA: &str = "
CREATE TABLE taxa (
    id INTEGER PRIMARY KEY,
    rank TEXT NOT NULL,
    kingdom TEXT NOT NULL,
    phylum TEXT,
    class TEXT,
    \"order\" TEXT,
    family TEXT,
    subfamily TEXT,
    genus TEXT,
    species_epithet TEXT,
    common_name TEXT NOT NULL
);
CREATE TABLE trips (
    id INTEGER PRIMARY KEY,
    name TEXT NOT NULL,
    date TEXT,
    location TEXT,
    notes TEXT
);
CREATE TABLE sightings (
    id INTEGER PRIMARY KEY,
    trip_id INTEGER,
    taxon_id INTEGER NOT NULL,
    kingdom TEXT NOT NULL,
    phylum TEXT,
    class TEXT,
    \"order\" TEXT,
    family TEXT,
    subfamily TEXT,
    genus TEXT,
    species_epithet TEXT,
    common_name TEXT NOT NULL,
    notes TEXT,
    media_path TEXT,
    date TEXT,
    location TEXT
);
";

fn setup_test_db() -> Connection {
    let conn = Connection::open_in_memory().unwrap();
    conn.pragma_update(None, "foreign_keys", "ON").unwrap();
    conn.execute_batch(SCHEMA).unwrap();
    conn
}

#[test]
fn test_create_trip_with_all_fields() {
    let conn = setup_test_db();

    let id = create_trip(
        &conn,
        "Morning Birding",
        Some("2025-01-15"),
        Some("Central Park"),
        Some("Cold morning, lots of activity"),
    ).unwrap();

    assert!(id > 0);

    let trip = get_trip_by_id(&conn, id).unwrap();
    assert_eq!(trip.name, "Morning Birding");
    assert_eq!(trip.date, Some("2025-01-15".to_string()));
    assert_eq!(trip.location, Some("Central Park".to_string()));
    assert_eq!(trip.notes, Some("Cold morning, lots of activity".to_string()));
}

#[test]
fn test_create_trip_minimal_fields() {
    let conn = setup_test_db();

    let id = create_trip(&conn, "Quick Walk", None, None, None).unwrap();

    let trip = get_trip_by_id(&conn, id).unwrap();
    assert_eq!(trip.name, "Quick Walk");
    assert_eq!(trip.date, None);
    assert_eq!(trip.location, None);
    assert_eq!(trip.notes, None);
}

#[test]
fn test_delete_trip() {
    let conn = setup_test_db();

    let id = create_trip(&conn, "Test Trip", None, None, None).unwrap();
    let rows = delete_trip(&conn, id).unwrap();
    assert_eq!(rows, 1);

    let result = get_trip_by_id(&conn, id);
    assert!(result.is_err());
}

#[test]
fn test_get_nonexistent_trip() {
    let conn = setup_test_db();
    let result = get_trip_by_id(&conn, 99999);
    assert!(result.is_err());
}

#[test]
fn test_get_trips_by_taxon_id() {
    let conn = setup_test_db();

    let taxon_id = create_taxon(
        &conn,
        "species",
        "Animalia",
        Some("Chordata"),
        Some("Aves"),
        Some("Passeriformes"),
        Some("Corvidae"),
        None,
        Some("Cyanocitta"),
        Some("cristata"),
        "Blue Jay",
    ).unwrap();

    let trip1 = create_trip(&conn, "Morning Walk", Some("2025-01-20"), Some("Park"), None).unwrap();
    let trip2 = create_trip(&conn, "Afternoon Hike", Some("2025-01-15"), Some("Trail"), None).unwrap();
    let trip3 = create_trip(&conn, "Evening Stroll", Some("2025-01-25"), Some("Beach"), None).unwrap();

    create_sighting(&conn, Some(trip1), taxon_id, None, None, None, None).unwrap();
    create_sighting(&conn, Some(trip2), taxon_id, None, None, None, None).unwrap();

    let taxon = get_taxon_by_id(&conn, taxon_id).unwrap();
    let results = get_trips_by_taxon(&conn, &taxon).unwrap();
    assert_eq!(results.len(), 2);

    assert_eq!(results[0].name, "Morning Walk");
    assert_eq!(results[1].name, "Afternoon Hike");

    assert!(!results.iter().any(|t| t.id == trip3));
}

#[test]
fn test_get_trips_by_taxon_id_no_trips() {
    let conn = setup_test_db();

    let taxon_id = create_taxon(
        &conn,
        "species",
        "Animalia",
        Some("Chordata"),
        Some("Aves"),
        Some("Passeriformes"),
        Some("Turdidae"),
        None,
        Some("Turdus"),
        Some("migratorius"),
        "American Robin",
    ).unwrap();

    let taxon = get_taxon_by_id(&conn, taxon_id).unwrap();
    let results = get_trips_by_taxon(&conn, &taxon).unwrap();
    assert_eq!(results.len(), 0);
}

#[test]
fn test_get_trips_by_taxon_id_with_sightings_without_trip() {
    let conn = setup_test_db();

    let taxon_id = create_taxon(
        &conn,
        "species",
        "Animalia",
        Some("Chordata"),
        Some("Aves"),
        Some("Passeriformes"),
        Some("Turdidae"),
        None,
        Some("Turdus"),
        Some("migratorius"),
        "American Robin",
    ).unwrap();

    create_sighting(&conn, None, taxon_id, None, None, None, None).unwrap();

    let taxon = get_taxon_by_id(&conn, taxon_id).unwrap();
    let results = get_trips_by_taxon(&conn, &taxon).unwrap();
    assert_eq!(results.len(), 0);
}

#[test]
fn test_get_trips_by_taxon_id_distinct() {
    let conn = setup_test_db();

    let taxon_id = create_taxon(
        &conn,
        "species",
        "Animalia",
        Some("Chordata"),
        Some("Aves"),
        Some("Passeriformes"),
        Some("Corvidae"),
        None,
        Some("Cyanocitta"),
        Some("cristata"),
        "Blue Jay",
    ).unwrap();

    let trip_id = create_trip(&conn, "Morning Walk", Some("2025-01-15"), Some("Park"), None).unwrap();

    create_sighting(&conn, Some(trip_id), taxon_id, None, None, None, None).unwrap();
    create_sighting(&conn, Some(trip_id), taxon_id, None, None, None, None).unwrap();
    create_sighting(&conn, Some(trip_id), taxon_id, None, None, None, None).unwrap();

    let taxon = get_taxon_by_id(&conn, taxon_id).unwrap();
    let results = get_trips_by_taxon(&conn, &taxon).unwrap();
    assert_eq!(results.len(), 1);
    assert_eq!(results[0].name, "Morning Walk");
}

#[test]
fn test_get_trips_by_subfamily_taxon() {
    let conn = setup_test_db();

    let subfamily_id = create_taxon(
        &conn,
        "subfamily",
        "Animalia",
        Some("Chordata"),
        Some("Aves"),
        Some("Passeriformes"),
        Some("Corvidae"),
        Some("Corvinae"),
        None,
        None,
        "Corvinae",
    ).unwrap();

    let species_id = create_taxon(
        &conn,
        "species",
        "Animalia",
        Some("Chordata"),
        Some("Aves"),
        Some("Passeriformes"),
        Some("Corvidae"),
        Some("Corvinae"),
        Some("Corvus"),
        Some("corax"),
        "Common Raven",
    ).unwrap();

    let trip1 = create_trip(&conn, "Trip 1", Some("2025-01-15"), None, None).unwrap();
    let trip2 = create_trip(&conn, "Trip 2", Some("2025-01-20"), None, None).unwrap();
    let _trip3 = create_trip(&conn, "Trip 3", Some("2025-01-25"), None, None).unwrap();

    create_sighting(&conn, Some(trip1), subfamily_id, None, None, None, None).unwrap();
    create_sighting(&conn, Some(trip2), species_id, None, None, None, None).unwrap();

    let subfamily_taxon = get_taxon_by_id(&conn, subfamily_id).unwrap();
    let results = get_trips_by_taxon(&conn, &subfamily_taxon).unwrap();
    assert_eq!(results.len(), 2);

    let trip_names: Vec<String> = results.iter().map(|t| t.name.clone()).collect();
    assert!(trip_names.contains(&"Trip 1".to_string()));
    assert!(trip_names.contains(&"Trip 2".to_string()));
}

#[test]
fn test_get_trips_by_family_includes_subfamily_sightings() {
    let conn = setup_test_db();

    let family_id = create_taxon(
        &conn,
        "family",
        "Animalia",
        Some("Chordata"),
        Some("Aves"),
        Some("Passeriformes"),
        Some("Corvidae"),
        None,
        None,
        None,
        "Corvidae",
    ).unwrap();

    let subfamily_id = create_taxon(
        &conn,
        "subfamily",
        "Animalia",
        Some("Chordata"),
        Some("Aves"),
        Some("Passeriformes"),
        Some("Corvidae"),
        Some("Corvinae"),
        None,
        None,
        "Corvinae",
    ).unwrap();

    let trip_id = create_trip(&conn, "Corvid Trip", Some("2025-01-15"), None, None).unwrap();
    create_sighting(&conn, Some(trip_id), subfamily_id, None, None, None, None).unwrap();

    let family_taxon = get_taxon_by_id(&conn, family_id).unwrap();
    let results = get_trips_by_taxon(&conn, &family_taxon).unwrap();
    assert_eq!(results.len(), 1);
    assert_eq!(results[0].name, "Corvid Trip");
}
