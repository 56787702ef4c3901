//! The verified core of a delay effect built on a compiled signal-processing
//! graph: it carries host-automated parameter values into the named control
//! inputs of the graph and decides, block by block, what the graph is told.
//!
//! - `value`: fixed-point scalars and ranges. Values are integers throughout;
//!   an embedding converts at its edge.
//! - `param`: the parameter store, with range, automation target and
//!   smoothed value of each parameter.
//! - `bridge`: the writer and reader handles between which control values
//!   change hands as whole snapshots.
//! - `paths`: the control paths of a graph, read from its interface
//!   description.
//! - `engine`: layout, buffer configuration and lifecycle of the graph.
//! - `plugin`: the plugin instance and its process loop.
//! - `text`: comparison of paths and identities.
//!
//! The graph itself, its samples and the host are outside this library. Each
//! type has a mathematical model, its view, and every function says in its
//! contract what it does to that model; the laws that relate several
//! functions are proof functions beside them.

pub mod bridge;
pub mod engine;
pub mod param;
pub mod paths;
pub mod plugin;
pub mod text;
pub mod value;
