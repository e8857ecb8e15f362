//! Request-routing and access-control core for a byte-range-ticket
//! (htsget-style) genomic data service.
//!
//! The engine answers one question: given a client query naming a dataset
//! identifier and optional filters, is the identifier recognized and
//! permitted under operator policy, and if so, what storage-backend
//! location does it rewrite to?  The answer is assembled from three parts:
//! a pattern-based identifier resolver ([`regex_resolver::RegexResolver`]),
//! a six-axis access-control predicate ([`regex_resolver::AllowGuard`]),
//! and a storage-backend descriptor ([`storage::Storage`]).
//!
//! The engine is purely computational: it performs no I/O and never
//! mutates a query.  Every public operation carries a contract stating
//! exactly what it returns, and the contracts are machine-checked.

pub mod concat;
pub mod pattern;
pub mod regex_resolver;
pub mod storage;
pub mod types;
pub mod util;
