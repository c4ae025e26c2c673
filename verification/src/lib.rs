//! A typed client library for the Slurm REST API.
//!
//! Builds authenticated requests against the versioned `slurm` and
//! `slurmdb` REST namespaces and decodes JSON responses into typed
//! structures (nodes, partitions, reservations, diagnostics, pings).
pub mod client;
pub mod diag;
pub mod error;
pub mod json;
pub mod meta;
pub mod node;
pub mod partition;
pub mod ping;
pub mod request;
pub mod reservation;

pub use client::{Slurm, SlurmDB};
pub use diag::{Diag, DiagRpcm, DiagRpcu, DiagStatistics};
pub use error::ClientError;
pub use meta::{Error, Meta, MetaPlugin, MetaSlurm, MetaSlurmVersion};
pub use node::{Node, NodesResponse};
pub use partition::{Partition, PartitionsResponse};
pub use ping::{Ping, Pings};
pub use request::{BuiltRequest, Method};
pub use reservation::{Reservation, ReservationPurgeCompleted, ReservationsResponse};
