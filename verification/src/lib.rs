//! A lightweight structured-logging facade: leveled records pass through
//! pluggable handlers, each pairing a filter predicate with a formatter and
//! a sink, dispatched in registration order by a logger registry.

pub mod filters;
pub mod formatters;
pub mod handlers;
pub mod level;
pub mod logger;
pub mod record;
pub mod time;
