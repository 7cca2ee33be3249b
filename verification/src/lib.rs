//! Model-paint records, their textual format, and the series registry.
//!
//! A paint record carries a name, a 16-bit-per-channel RGB colour, a fixed
//! set of categorical physical characteristics and free-form notes.  Records
//! are grouped into series, each series owned by a `(manufacturer, series
//! name)` identity, and series are tracked by an in-memory registry that
//! rejects duplicate identities and fans "paint chosen" events out to
//! subscribers.

pub mod characteristics;
pub mod config;
pub mod document;
pub mod error;
pub mod paint;
pub mod pathux;
pub mod record;
pub mod record_laws;
pub mod registry;
pub mod scan;
pub mod series;
