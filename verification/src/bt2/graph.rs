//! The bookkeeping that marks a graph as failed when one of its configuration steps
//! does not complete.
use vstd::prelude::*;

verus! {

/// One configuration step of a graph: unless the step is marked successful, the graph
/// is marked as failed once the step is over.
#[derive(Debug)]
pub struct ConfigFailsafe {
    success: bool,
    failed_configuration: bool,
}

impl ConfigFailsafe {
    pub closed spec fn spec_success(&self) -> bool {
        self.success
    }

    pub closed spec fn spec_failed(&self) -> bool {
        self.failed_configuration
    }

    /// Starts a step on a graph whose configuration has not failed (a failed graph
    /// cannot be configured further).
    pub fn check(failed_configuration: bool) -> (r: Self)
        requires
            !failed_configuration,
        ensures
            !r.spec_success(),
            !r.spec_failed(),
    {
        ConfigFailsafe { success: false, failed_configuration }
    }

    /// Marks the graph as failed.
    pub fn fail(&mut self)
        ensures
            final(self).spec_failed(),
            final(self).spec_success() == old(self).spec_success(),
    {
        self.failed_configuration = true;
    }

    /// Marks the step as successful.
    pub fn set_success(&mut self)
        ensures
            final(self).spec_success(),
            final(self).spec_failed() == old(self).spec_failed(),
    {
        self.success = true;
    }

    /// Ends the step, giving whether the graph's configuration has failed: it has
    /// unless the step was marked successful (and not marked failed).
    pub fn finish(self) -> (failed: bool)
        ensures
            failed == (self.spec_failed() || !self.spec_success()),
    {
        let mut this = self;
        if !this.success {
            this.fail();
        }
        this.failed_configuration
    }
}

} // verus!
