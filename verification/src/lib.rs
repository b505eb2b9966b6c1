//! A minimal content-addressed record store with derived secondary indexes.
//!
//! Records (papers and the annotations attached to them) are identified by a
//! content hash, a deterministic function of a record's fields, and made
//! discoverable without a query engine through anchor-derived link fan-out:
//! a directed, tagged edge from a well-known anchor address (or from another
//! record's address) to the record's content hash.
//!
//! The durable state — committed records, the append-only link index, and the
//! collaborating hub module — lives outside this module.  [`store::Store`] and
//! [`bridge::Bridge`] model exactly the state the indexing discipline reads
//! and writes, so every operation here is specified and verified as a
//! transition on that state: what it commits, which edges it creates, what an
//! enumeration returns, and when each error is surfaced.

pub mod addressing;
pub mod bridge;
pub mod errors;
pub mod laws;
pub mod records;
pub mod registry;
pub mod store;
