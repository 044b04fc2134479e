//! The command model a front end drives the log with: each variant carries
//! the plain values one operation needs. A command-line front end parses its
//! arguments into this shape and dispatches on it.

use vstd::prelude::*;

verus! {

/// A parsed invocation: one command to run.
#[derive(Debug)]
pub struct Cli {
    pub command: Commands,
}

/// Every operation a front end can request.
#[derive(Debug)]
pub enum Commands {
    SearchSightings { query: String },
    SearchTrips { query: String },
    SearchTaxa { query: String },
    InitDb,
    DropDb,
    AddTrip { name: String, date: Option<String>, location: Option<String>, notes: Option<String> },
    ShowTrip { id: i64 },
    DeleteTrip { id: i64 },
    AddTaxon {
        rank: String,
        kingdom: String,
        common_name: String,
        phylum: Option<String>,
        class: Option<String>,
        order: Option<String>,
        family: Option<String>,
        subfamily: Option<String>,
        genus: Option<String>,
        species_epithet: Option<String>,
    },
    ShowTaxon { id: i64 },
    DeleteTaxon { id: i64 },
    AddSighting {
        trip_id: Option<i64>,
        taxon_id: i64,
        notes: Option<String>,
        media_path: Option<String>,
        date: Option<String>,
        location: Option<String>,
    },
    ShowSighting { id: i64 },
    DeleteSighting { id: i64 },
}

} // verus!
