use rusqlite::Connection;
use fast_watcher::{create_sighting, create_taxon, create_trip, delete_sighting, get_sighting_by_id, get_sightings_by_taxon, get_sightings_by_trip_id, get_taxon_by_id};

const SCHEMA: &str = "
CREATE TABLE taxa (
    id INTEGER PRIMARY KEY,
    rank TEXT NOT NULL,
    kingdom TEXT NOT NULL,
    phylum TEXT,
    class TEXT,
    \"order\" TEXT,
    family TEXT,
    subfamily TEXT,
    genus TEXT,
    species_epithet TEXT,
    common_name TEXT NOT NULL
);
CREATE TABLE trips (
    id INTEGER PRIMARY KEY,
    name TEXT NOT NULL,
    date TEXT,
    location TEXT,
    notes TEXT
);
CREATE TABLE sightings (
    id INTEGER PRIMARY KEY,
    trip_id INTEGER,
    taxon_id INTEGER NOT NULL,
    kingdom TEXT NOT NULL,
    phylum TEXT,
    class TEXT,
    \"order\" TEXT,
    family TEXT,
    subfamily TEXT,
    genus TEXT,
    species_epithet TEXT,
    common_name TEXT NOT NULL,
    notes TEXT,
    media_path TEXT,
    date TEXT,
    location TEXT
);
";

fn setup_test_db() -> Connection {
    let conn = Connection::open_in_memory().unwrap();
    conn.pragma_update(None, "foreign_keys", "ON").unwrap();
    conn.execute_batch(SCHEMA).unwrap();
    conn
}

#[test]
fn test_create_sighting_with_species_and_trip() {
    let conn = setup_test_db();

    let taxon_id = create_taxon(
        &conn,
        "species",
        "Animalia",
        Some("Chordata"),
        Some("Aves"),
        Some("Passeriformes"),
        Some("Turdidae"),
        None,
        Some("Turdus"),
        Some("migratorius"),
        "American Robin",
    ).unwrap();

    let trip_id = create_trip(&conn, "Morning Walk", Some("2025-01-15"), Some("Park"), None).unwrap();

    let sighting_id = create_sighting(
        &conn,
        Some(trip_id),
        taxon_id,
        Some("Foraging on ground"),
        None,
        Some("2025-01-15"),
        Some("Near pond"),
    ).unwrap();

    assert!(sighting_id > 0);

    let sighting = get_sighting_by_id(&conn, sighting_id).unwrap();
    assert_eq!(sighting.trip_id, Some(trip_id));
    assert_eq!(sighting.taxon_id, taxon_id);
    assert_eq!(sighting.kingdom, "Animalia");
    assert_eq!(sighting.species_epithet, Some("migratorius".to_string()));
    assert_eq!(sighting.common_name, "American Robin");
}

#[test]
fn test_create_sighting_with_family_level_taxon() {
    let conn = setup_test_db();

    let taxon_id = create_taxon(
        &conn,
        "family",
        "Animalia",
        Some("Chordata"),
        Some("Aves"),
        Some("Passeriformes"),
        Some("Corvidae"),
        None,
        None,
        None,
        "Crow Family",
    ).unwrap();

    let sighting_id = create_sighting(
        &conn,
        None,
        taxon_id,
        Some("Black bird, couldn't ID to species"),
        None,
        None,
        None,
    ).unwrap();

    let sighting = get_sighting_by_id(&conn, sighting_id).unwrap();
    assert_eq!(sighting.trip_id, None);
    assert_eq!(sighting.family, Some("Corvidae".to_string()));
    assert_eq!(sighting.genus, None);
    assert_eq!(sighting.species_epithet, None);
    assert_eq!(sighting.common_name, "Crow Family");
}

#[test]
fn test_create_sighting_with_genus_level_taxon() {
    let conn = setup_test_db();

    let taxon_id = create_taxon(
        &conn,
        "genus",
        "Animalia",
        Some("Chordata"),
        Some("Aves"),
        Some("Accipitriformes"),
        Some("Accipitridae"),
        None,
        Some("Buteo"),
        None,
        "Buteo Hawks",
    ).unwrap();

    let sighting_id = create_sighting(
        &conn,
        None,
        taxon_id,
        Some("Large hawk overhead"),
        None,
        None,
        None,
    ).unwrap();

    let sighting = get_sighting_by_id(&conn, sighting_id).unwrap();
    assert_eq!(sighting.genus, Some("Buteo".to_string()));
    assert_eq!(sighting.species_epithet, None);
}

#[test]
fn test_create_sighting_with_invalid_taxon() {
    let conn = setup_test_db();

    let result = create_sighting(
        &conn,
        None,
        99999,
        None,
        None,
        None,
        None,
    );

    assert!(result.is_err());
}

#[test]
fn test_delete_sighting() {
    let conn = setup_test_db();

    let taxon_id = create_taxon(
        &conn,
        "species",
        "Animalia",
        Some("Chordata"),
        Some("Aves"),
        Some("Passeriformes"),
        Some("Testidae"),
        None,
        Some("Test"),
        Some("temp"),
        "Test Bird",
    ).unwrap();

    let sighting_id = create_sighting(&conn, None, taxon_id, None, None, None, None).unwrap();
    let rows = delete_sighting(&conn, sighting_id).unwrap();
    assert_eq!(rows, 1);

    let result = get_sighting_by_id(&conn, sighting_id);
    assert!(result.is_err());
}

#[test]
fn test_get_sightings_by_taxon() {
    let conn = setup_test_db();

    let taxon_id = create_taxon(
        &conn,
        "species",
        "Animalia",
        Some("Chordata"),
        Some("Aves"),
        Some("Passeriformes"),
        Some("Turdidae"),
        None,
        Some("Turdus"),
        Some("migratorius"),
        "American Robin",
    ).unwrap();

    create_sighting(&conn, None, taxon_id, None, None, Some("2025-01-15"), None).unwrap();
    create_sighting(&conn, None, taxon_id, None, None, Some("2025-01-20"), None).unwrap();
    create_sighting(&conn, None, taxon_id, None, None, Some("2025-01-10"), None).unwrap();

    let taxon = get_taxon_by_id(&conn, taxon_id).unwrap();
    let results = get_sightings_by_taxon(&conn, &taxon).unwrap();
    assert_eq!(results.len(), 3);

    assert_eq!(results[0].date, Some("2025-01-20".to_string()));
    assert_eq!(results[1].date, Some("2025-01-15".to_string()));
    assert_eq!(results[2].date, Some("2025-01-10".to_string()));

    for sighting in &results {
        assert_eq!(sighting.taxon_id, taxon_id);
        assert_eq!(sighting.common_name, "American Robin");
    }
}

#[test]
fn test_get_sightings_by_taxon_empty() {
    let conn = setup_test_db();

    let taxon_id = create_taxon(
        &conn,
        "species",
        "Animalia",
        Some("Chordata"),
        Some("Aves"),
        Some("Passeriformes"),
        Some("Turdidae"),
        None,
        Some("Turdus"),
        Some("migratorius"),
        "American Robin",
    ).unwrap();

    let taxon = get_taxon_by_id(&conn, taxon_id).unwrap();
    let results = get_sightings_by_taxon(&conn, &taxon).unwrap();
    assert_eq!(results.len(), 0);
}

#[test]
fn test_get_sightings_by_trip_id() {
    let conn = setup_test_db();

    let trip_id = create_trip(&conn, "Morning Walk", Some("2025-01-15"), Some("Park"), None).unwrap();

    let taxon1 = create_taxon(&conn, "species", "Animalia", Some("Chordata"), Some("Aves"), Some("Passeriformes"), Some("Turdidae"), None, Some("Turdus"), Some("migratorius"), "American Robin").unwrap();
    let taxon2 = create_taxon(&conn, "species", "Animalia", Some("Chordata"), Some("Aves"), Some("Accipitriformes"), Some("Accipitridae"), None, Some("Buteo"), Some("jamaicensis"), "Red-tailed Hawk").unwrap();

    create_sighting(&conn, Some(trip_id), taxon1, None, None, None, None).unwrap();
    create_sighting(&conn, Some(trip_id), taxon2, None, None, None, None).unwrap();

    let results = get_sightings_by_trip_id(&conn, trip_id).unwrap();
    assert_eq!(results.len(), 2);

    for sighting in &results {
        assert_eq!(sighting.trip_id, Some(trip_id));
    }
}

#[test]
fn test_get_sightings_by_trip_id_empty() {
    let conn = setup_test_db();

    let trip_id = create_trip(&conn, "Morning Walk", None, None, None).unwrap();

    let results = get_sightings_by_trip_id(&conn, trip_id).unwrap();
    assert_eq!(results.len(), 0);
}

#[test]
fn test_create_sighting_with_subfamily_level_taxon() {
    let conn = setup_test_db();

    let taxon_id = create_taxon(
        &conn,
        "subfamily",
        "Animalia",
        Some("Chordata"),
        Some("Aves"),
        Some("Passeriformes"),
        Some("Corvidae"),
        Some("Corvinae"),
        None,
        None,
        "Corvinae Subfamily",
    ).unwrap();

    let sighting_id = create_sighting(
        &conn,
        None,
        taxon_id,
        Some("Corvid at subfamily level"),
        None,
        None,
        None,
    ).unwrap();

    let sighting = get_sighting_by_id(&conn, sighting_id).unwrap();
    assert_eq!(sighting.family, Some("Corvidae".to_string()));
    assert_eq!(sighting.subfamily, Some("Corvinae".to_string()));
    assert_eq!(sighting.genus, None);
    assert_eq!(sighting.species_epithet, None);
    assert_eq!(sighting.common_name, "Corvinae Subfamily");
}

#[test]
fn test_get_sightings_by_taxon_subfamily_rank() {
    let conn = setup_test_db();

    let subfamily_id = create_taxon(
        &conn,
        "subfamily",
        "Animalia",
        Some("Chordata"),
        Some("Aves"),
        Some("Passeriformes"),
        Some("Corvidae"),
        Some("Corvinae"),
        None,
        None,
        "Corvinae",
    ).unwrap();

    let species_id = create_taxon(
        &conn,
        "species",
        "Animalia",
        Some("Chordata"),
        Some("Aves"),
        Some("Passeriformes"),
        Some("Corvidae"),
        Some("Corvinae"),
        Some("Corvus"),
        Some("corax"),
        "Common Raven",
    ).unwrap();

    create_sighting(&conn, None, subfamily_id, None, None, Some("2025-01-10"), None).unwrap();
    create_sighting(&conn, None, species_id, None, None, Some("2025-01-15"), None).unwrap();
    create_sighting(&conn, None, species_id, None, None, Some("2025-01-20"), None).unwrap();

    let subfamily_taxon = get_taxon_by_id(&conn, subfamily_id).unwrap();
    let results = get_sightings_by_taxon(&conn, &subfamily_taxon).unwrap();
    assert_eq!(results.len(), 3);

    for sighting in &results {
        assert_eq!(sighting.subfamily, Some("Corvinae".to_string()));
    }
}

#[test]
fn test_get_sightings_by_taxon_family_includes_subfamily_descendants() {
    let conn = setup_test_db();

    let family_id = create_taxon(
        &conn,
        "family",
        "Animalia",
        Some("Chordata"),
        Some("Aves"),
        Some("Passeriformes"),
        Some("Corvidae"),
        None,
        None,
        None,
        "Corvidae Family",
    ).unwrap();

    let subfamily_id = create_taxon(
        &conn,
        "subfamily",
        "Animalia",
        Some("Chordata"),
        Some("Aves"),
        Some("Passeriformes"),
        Some("Corvidae"),
        Some("Corvinae"),
        None,
        None,
        "Corvinae",
    ).unwrap();

    let species_with_subfamily_id = create_taxon(
        &conn,
        "species",
        "Animalia",
        Some("Chordata"),
        Some("Aves"),
        Some("Passeriformes"),
        Some("Corvidae"),
        Some("Corvinae"),
        Some("Corvus"),
        Some("corax"),
        "Common Raven",
    ).unwrap();

    let species_no_subfamily_id = create_taxon(
        &conn,
        "species",
        "Animalia",
        Some("Chordata"),
        Some("Aves"),
        Some("Passeriformes"),
        Some("Corvidae"),
        None,
        Some("Cyanocitta"),
        Some("cristata"),
        "Blue Jay",
    ).unwrap();

    create_sighting(&conn, None, family_id, None, None, None, None).unwrap();
    create_sighting(&conn, None, subfamily_id, None, None, None, None).unwrap();
    create_sighting(&conn, None, species_with_subfamily_id, None, None, None, None).unwrap();
    create_sighting(&conn, None, species_no_subfamily_id, None, None, None, None).unwrap();

    let family_taxon = get_taxon_by_id(&conn, family_id).unwrap();
    let results = get_sightings_by_taxon(&conn, &family_taxon).unwrap();
    assert_eq!(results.len(), 4);

    for sighting in &results {
        assert_eq!(sighting.family, Some("Corvidae".to_string()));
    }
}
