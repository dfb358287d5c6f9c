//! The local indexing and query engine behind a desktop quick launcher:
//! browser-history collation (normalization, frecency scoring,
//! URL-keyed deduplication), a capped filesystem crawl with a per-platform
//! pruning policy, and a fan-out query engine that ranks and truncates
//! results from both sources. All I/O — vendor database snapshots, the
//! embedded cache store, the parallel directory walk, icon fetches —
//! lives with the caller; the library holds the data and the rules.
pub mod browser;
pub mod browser_data_source;
pub mod crawl;
pub mod file_data_source;
pub mod files;
pub mod frecency;
pub mod fuzzy;
pub mod query_engine;
pub mod rank;
pub mod settings;
pub mod text;
pub mod types;
pub mod urlnorm;
