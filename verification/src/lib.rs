//! Analysis of Minecraft crash logs: the runtime environment a log was
//! written in, a battery of diagnostic checks over it, and the cache of
//! symbol tables that turns obfuscated identifiers back into readable names.

pub mod analysis;
pub mod cache;
pub mod checks;
pub mod environment;
pub mod findings;
pub mod ingest;
pub mod mappings;
pub mod pattern;
pub mod report;
pub mod resolve;
pub mod text;
