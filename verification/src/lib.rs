//! Field-observation log: taxonomic classifications, trips, and sightings,
//! with rank-aware hierarchical matching and substring search.
//!
//! The rank hierarchy model, the hierarchical predicate builder, the
//! denormalizing write path, and the search validation and matching rules are
//! verified; the SQLite storage engine is an external collaborator reached
//! through a small set of trusted wrappers.

pub mod cli;
pub mod hierarchy;
pub mod models;
pub mod order;
pub mod rank;
pub mod search;
pub mod sql;
pub mod store;
pub mod text;
pub mod writepath;

pub use cli::Cli;
pub use cli::Commands;
pub use models::NewSighting;
pub use models::OpError;
pub use models::Sighting;
pub use models::Taxon;
pub use models::Trip;
pub use rank::Field;
pub use rank::Rank;
pub use rank::parse_rank;
pub use rank::significant_fields;
pub use store::create_sighting;
pub use store::create_taxon;
pub use store::create_trip;
pub use store::delete_sighting;
pub use store::delete_taxon;
pub use store::delete_trip;
pub use store::get_sighting_by_id;
pub use store::get_sightings_by_taxon;
pub use store::get_sightings_by_trip_id;
pub use store::get_taxon_by_id;
pub use store::get_trip_by_id;
pub use store::get_trips_by_taxon;
pub use store::get_trips_by_taxon_id;
pub use store::run_search_sightings;
pub use store::run_search_taxa;
pub use store::run_search_trips;
