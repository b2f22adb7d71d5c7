//! Verified building blocks for small Db2 administration tools: DSN
//! redaction, catalog-object name validation, catalog query planning,
//! maintenance decisions, decompression limits and XML stream checks.

pub mod text;
pub mod conversions;
pub mod dsn;
pub mod identifier;
pub mod catalog;
pub mod maintenance;
pub mod instance;
pub mod limited;
pub mod xml_scan;
pub mod gzip;
pub mod config;
pub mod lockfile;
pub mod run;
