//! The type logic of the babeltrace2 trace reader, over plain values: which class
//! types a field or value can be read as, the errors of a failed reading and their
//! messages, and the bookkeeping of a graph's configuration.
pub mod component;
pub mod field;
pub mod graph;
pub mod value;
