//! Service utilities around one central derivation: flattening a sum type
//! into a positional container.
//!
//! A sum type (a tagged union) is turned into a container of `N` optional
//! slots, one slot per field across all variants. Splitting a live value
//! populates exactly the slots owned by its active variant and leaves the
//! rest empty. Three projections share the slot layout: one takes the
//! fields by value, one borrows them, and one borrows them exclusively —
//! soundly, because the references are disjoint by construction. The
//! derivation runs in stages: schema extraction, slot allocation, layout
//! planning, projection and match-arm planning, and the split itself;
//! `laws` states what the whole pipeline upholds.
//!
//! Around it stand the service helpers that decide from plain values:
//! environment-variable outcomes, the error record with its status rules,
//! request-size and client-address decisions, and tracing-header
//! formatting. Everything that touches the outside world — processes,
//! sockets, clocks, token streams — stays at the program's edge and hands
//! these modules plain values.

pub mod env;
pub mod error;
pub mod laws;
pub mod layout;
pub mod schema;
pub mod server;
pub mod split;
pub mod trace;
pub mod traits;
