//! The state machines behind a profiler for solver traces.
//!
//! A trace can run to gigabytes. The profiler reads it in the browser, shows
//! how far the parse has come, lets the user stop it, and then lets the user
//! pick instantiations and dependencies in the derived graph. This crate
//! holds what is decided on the way, each decision with its contract:
//!
//! - [`progress`]: progress reports and the smoothed reading speed;
//! - [`cancel`]: the flag by which a parse is asked to stop;
//! - [`file_data`]: the ingestion pipeline, from a picked file to a parsed
//!   one, attempt by attempt;
//! - [`handle`]: the parsed file, its graph built once, its matching loops;
//! - [`graph_info`] over [`selection`]: the selected nodes and edges, folded
//!   and unfolded, and their details;
//! - [`element_id`]: the ids under which they stand on the page;
//! - [`global_callbacks`]: who is registered for the page's mouse and drag
//!   events;
//! - [`position`]: where the pointer is.
//!
//! Two modules state, without proof, what is taken from elsewhere:
//! [`ordered`] of the insertion-ordered map, [`edge_number`] of the graph's
//! edge indices. One more such statement, of the standard library's UTF-8
//! decoding, stands in [`file_data`].
//!
//! Reading files and the clock, running the parser and the graph engine,
//! and drawing are the host's. The host hands over plain values and closures; the state
//! machines say what they do with them.

pub mod cancel;
pub mod edge_number;
pub mod element_id;
pub mod file_data;
pub mod global_callbacks;
pub mod graph_info;
pub mod handle;
pub mod ordered;
pub mod position;
pub mod progress;
pub mod selection;
