use vstd::prelude::*;

pub use crate::model::Time;

verus! {

/// Where a trace event was recorded: CPU, process, thread and host.
#[derive(Debug, Clone, PartialEq, Eq)]
pub struct Context {
    cpu_id: u32,
    vpid: u32,
    vtid: u32,
    procname: String,
    hostname: String,
}

/// The abstract state of a [`Context`].
pub struct ContextView {
    pub cpu_id: u32,
    pub vpid: u32,
    pub vtid: u32,
    pub procname: Seq<char>,
    pub hostname: Seq<char>,
}

impl View for Context {
    type V = ContextView;

    closed spec fn view(&self) -> ContextView {
        ContextView {
            cpu_id: self.cpu_id,
            vpid: self.vpid,
            vtid: self.vtid,
            procname: self.procname@,
            hostname: self.hostname@,
        }
    }
}

impl Context {
    pub fn new(cpu_id: u32, vpid: u32, vtid: u32, procname: String, hostname: String) -> (r: Self)
        ensures
            r@ == (ContextView { cpu_id, vpid, vtid, procname: procname@, hostname: hostname@ }),
    {
        Self { cpu_id, vpid, vtid, procname, hostname }
    }

    pub fn cpu_id(&self) -> (r: u32)
        ensures
            r == self@.cpu_id,
    {
        self.cpu_id
    }

    pub fn vpid(&self) -> (r: u32)
        ensures
            r == self@.vpid,
    {
        self.vpid
    }

    pub fn vtid(&self) -> (r: u32)
        ensures
            r == self@.vtid,
    {
        self.vtid
    }

    pub fn procname(&self) -> (r: &str)
        ensures
            r@ == self@.procname,
    {
        self.procname.as_str()
    }

    pub fn hostname(&self) -> (r: &str)
        ensures
            r@ == self@.hostname,
    {
        self.hostname.as_str()
    }
}

} // verus!
