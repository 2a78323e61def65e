//! The default names of the output files of the analyses.
use vstd::prelude::*;

verus! {

pub const DEPENDENCY_GRAPH: &'static str = "dependency_graph.dot";
pub const MESSAGE_LATENCY: &'static str = "message_latency.json";
pub const CALLBACK_DURATION: &'static str = "callback_duration.json";
pub const CALLBACK_PUBLICATIONS: &'static str = "callback_publications.txt";
pub const CALLBACK_DEPENDENCY: &'static str = "callback_dependency.dot";
pub const MESSAGE_TAKE_TO_CALLBACK_LATENCY: &'static str = "message_take_to_callback_latency.json";
pub const UTILIZATION: &'static str = "utilization.json";
pub const REAL_UTILIZATION: &'static str = "real_utilization.json";
pub const SPIN_DURATION: &'static str = "spin_duration.json";

} // verus!
