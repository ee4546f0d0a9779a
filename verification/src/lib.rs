//! Host telemetry snapshots and their latest-value distribution.
//!
//! The crate holds the pure core of a telemetry pipeline: the rendering of
//! byte counts, the mapping of raw probe facts into a snapshot, the
//! single-slot broadcaster with its subscription cursors, the decision
//! functions of the acquisition cycle and of each viewer connection, and
//! what holds of the pipeline as a whole in every interleaving of these.

pub mod formato;
pub mod info_sistema;
pub mod difusion;
pub mod adquisicion;
pub mod conexion;
pub mod sistema;
