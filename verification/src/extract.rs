//! Names of the elements whose data can be extracted from a bundle of results, and the
//! data extracted.
use vstd::prelude::*;
use vstd::string::*;

verus! {

/// A ROS interface (a publisher, subscriber, timer or service) of a node.
#[derive(Debug, Clone, PartialEq, Eq)]
pub struct RosInterfaceCompleteName {
    pub interface: String,
    pub node: String,
}

impl RosInterfaceCompleteName {
    /// The text of the name: the node, `::`, then the interface.
    pub fn to_string(&self) -> (r: String)
        ensures
            r@ == self.node@ + "::"@ + self.interface@,
    {
        let mut s = String::from_str(self.node.as_str());
        s.append("::");
        s.append(self.interface.as_str());
        s
    }
}

/// A channel of messages on a topic, from the node that publishes to the node that
/// subscribes.
#[derive(Debug, Clone, PartialEq, Eq)]
pub struct RosChannelCompleteName {
    pub source_node: String,
    pub destination_node: String,
    pub topic: String,
}

impl RosChannelCompleteName {
    /// The text of the name: the source node, `-(`, the topic, `)>`, then the
    /// destination node.
    pub fn to_string(&self) -> (r: String)
        ensures
            r@ == self.source_node@ + "-("@ + self.topic@ + ")>"@ + self.destination_node@,
    {
        let mut s = String::from_str(self.source_node.as_str());
        s.append("-(");
        s.append(self.topic.as_str());
        s.append(")>");
        s.append(self.destination_node.as_str());
        s
    }
}

/// Data extracted for a chart.
#[derive(Debug, Clone)]
pub enum ChartableData {
    /// A series of durations or delays, in nanoseconds.
    I64(Vec<i64>),
}

} // verus!
