//! A line-oriented record accessor for JSON-lines files.
//!
//! The library owns the logic of the accessor: counting lines, paginated
//! random access, case-insensitive substring search, progress estimation
//! during a scan, and a manager that serializes access to one active store.
//! Reading the file itself, clocks and progress delivery are left to the
//! surrounding program, which hands the library plain values.

pub mod data;
pub mod debug;
pub mod error;
pub mod manager;
pub mod numfmt;
pub mod reader;
pub mod scan;
pub mod text;
