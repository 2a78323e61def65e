use vstd::prelude::*;

use crate::known::{known_to_option, known_view, Known};
use crate::model::{
    caller_type, AlreadySetError, CallbackCaller, CallbackInstanceRef, CallbackRef, CallbackTrigger,
    CallbackType, ServiceRef, SubscriberRef, Time, TimerRef,
};

verus! {

/// A callback registered with a subscription, a service or a timer.
#[derive(Debug)]
pub struct Callback {
    handle: u64,
    caller: Known<CallbackCaller>,
    name: Known<String>,
    running_instance: Option<CallbackInstanceRef>,
    hostname: String,
    is_removed: bool,
}

/// The abstract state of a [`Callback`].
pub struct CallbackView {
    pub handle: u64,
    pub caller: Known<CallbackCaller>,
    pub name: Known<Seq<char>>,
    pub running_instance: Option<CallbackInstanceRef>,
    pub hostname: Seq<char>,
    pub is_removed: bool,
}

impl View for Callback {
    type V = CallbackView;

    closed spec fn view(&self) -> CallbackView {
        CallbackView {
            handle: self.handle,
            caller: self.caller,
            name: known_view(self.name),
            running_instance: self.running_instance,
            hostname: self.hostname@,
            is_removed: self.is_removed,
        }
    }
}

/// The state of a callback just registered with its caller.
pub open spec fn fresh_callback_view(handle: u64, caller: CallbackCaller, hostname: Seq<char>) -> CallbackView {
    CallbackView {
        handle,
        caller: Known::Known(caller),
        name: Known::Unknown,
        running_instance: None,
        hostname,
        is_removed: false,
    }
}

impl Callback {
    pub(crate) fn new(handle: u64, caller: CallbackCaller, hostname: String) -> (r: Self)
        ensures
            r@ == fresh_callback_view(handle, caller, hostname@),
    {
        Self {
            handle,
            caller: Known::Known(caller),
            name: Known::Unknown,
            running_instance: None,
            hostname,
            is_removed: false,
        }
    }

    pub fn new_subscription(handle: u64, caller: SubscriberRef, hostname: String) -> (r: Self)
        ensures
            r@ == fresh_callback_view(handle, CallbackCaller::Subscription(caller), hostname@),
    {
        Self::new(handle, CallbackCaller::Subscription(caller), hostname)
    }

    pub fn new_service(handle: u64, caller: ServiceRef, hostname: String) -> (r: Self)
        ensures
            r@ == fresh_callback_view(handle, CallbackCaller::Service(caller), hostname@),
    {
        Self::new(handle, CallbackCaller::Service(caller), hostname)
    }

    pub fn new_timer(handle: u64, caller: TimerRef, hostname: String) -> (r: Self)
        ensures
            r@ == fresh_callback_view(handle, CallbackCaller::Timer(caller), hostname@),
    {
        Self::new(handle, CallbackCaller::Timer(caller), hostname)
    }

    /// Records the symbol name of the callback; succeeds when it is still unknown.
    pub fn set_name(&mut self, name: String) -> (r: Result<(), AlreadySetError<&Self, String>>)
        requires
            !old(self)@.is_removed,
        ensures
            r is Ok <==> old(self)@.name is Unknown,
            r is Ok ==> final(self)@ == (CallbackView { name: Known::Known(name@), ..old(self)@ }),
            r matches Err(e) ==> final(self)@ == old(self)@ && e.spec_new_value() == name
                && *e.spec_object() == *old(self) && e.spec_msg()@ == "callback name already set"@,
    {
        if self.name.is_unknown() {
            self.name = Known::new(name);
            Ok(())
        } else {
            Err(AlreadySetError::new(&*self, name, "callback name already set"))
        }
    }

    pub fn take_running_instance(&mut self) -> (r: Option<CallbackInstanceRef>)
        ensures
            r == old(self)@.running_instance,
            final(self)@ == (CallbackView { running_instance: None, ..old(self)@ }),
    {
        self.running_instance.take()
    }

    /// Records the execution that has just started.
    pub(crate) fn set_running_instance(&mut self, instance: CallbackInstanceRef)
        requires
            old(self)@.running_instance is None,
        ensures
            final(self)@ == (CallbackView { running_instance: Some(instance), ..old(self)@ }),
    {
        self.running_instance = Some(instance);
    }

    pub fn get_running_instance(&self) -> (r: Option<CallbackInstanceRef>)
        ensures
            r == self@.running_instance,
    {
        self.running_instance
    }

    pub fn is_timer_driven(&self) -> (b: bool)
        ensures
            b == (self@.caller matches Known::Known(CallbackCaller::Timer(_))),
    {
        matches!(self.caller, Known::Known(CallbackCaller::Timer(_)))
    }

    pub fn is_service_driven(&self) -> (b: bool)
        ensures
            b == (self@.caller matches Known::Known(CallbackCaller::Service(_))),
    {
        matches!(self.caller, Known::Known(CallbackCaller::Service(_)))
    }

    pub fn is_subscription_driven(&self) -> (b: bool)
        ensures
            b == (self@.caller matches Known::Known(CallbackCaller::Subscription(_))),
    {
        matches!(self.caller, Known::Known(CallbackCaller::Subscription(_)))
    }

    pub fn get_type(&self) -> (r: Known<CallbackType>)
        ensures
            r == (match self@.caller {
                Known::Known(c) => Known::Known(caller_type(c)),
                Known::Unknown => Known::Unknown,
            }),
    {
        match &self.caller {
            Known::Known(c) => Known::Known(c.get_type()),
            Known::Unknown => Known::Unknown,
        }
    }

    pub fn get_handle(&self) -> (r: u64)
        ensures
            r == self@.handle,
    {
        self.handle
    }

    pub fn get_name(&self) -> (r: Option<&str>)
        ensures
            match r {
                Some(s) => self@.name == Known::Known(s@),
                None => self@.name is Unknown,
            },
    {
        self.name.as_deref().into_option()
    }

    pub fn get_caller(&self) -> (r: Option<&CallbackCaller>)
        ensures
            match r {
                Some(c) => self@.caller == Known::Known(*c),
                None => self@.caller is Unknown,
            },
    {
        self.caller.as_ref().into_option()
    }

    pub fn get_hostname(&self) -> (r: &str)
        ensures
            r@ == self@.hostname,
    {
        self.hostname.as_str()
    }

    /// Marks the callback removed; its caller, when known, must already be removed.
    pub fn mark_removed(&mut self, caller_removed: bool)
        requires
            old(self)@.caller is Known ==> caller_removed,
        ensures
            final(self)@ == (CallbackView { is_removed: true, ..old(self)@ }),
    {
        self.is_removed = true;
    }

    pub fn is_removed(&self) -> (b: bool)
        ensures
            b == self@.is_removed,
    {
        self.is_removed
    }
}

/// One execution of a callback.
#[derive(Debug)]
pub struct CallbackInstance {
    start_time: Time,
    end_time: Known<Time>,
    callback: CallbackRef,
    trigger: CallbackTrigger,
}

/// The abstract state of a [`CallbackInstance`].
pub struct CallbackInstanceView {
    pub start_time: Time,
    pub end_time: Known<Time>,
    pub callback: CallbackRef,
    pub trigger: CallbackTrigger,
}

impl View for CallbackInstance {
    type V = CallbackInstanceView;

    closed spec fn view(&self) -> CallbackInstanceView {
        CallbackInstanceView {
            start_time: self.start_time,
            end_time: self.end_time,
            callback: self.callback,
            trigger: self.trigger,
        }
    }
}

impl CallbackInstance {
    /// An execution of `callback`, started at `start_time` by `trigger`, not ended yet.
    pub(crate) fn started(callback: CallbackRef, start_time: Time, trigger: CallbackTrigger) -> (r: Self)
        ensures
            r@ == (CallbackInstanceView { start_time, end_time: Known::Unknown, callback, trigger }),
    {
        Self { start_time, end_time: Known::Unknown, callback, trigger }
    }

    /// Records the end of the execution; it must not have ended before.
    pub fn end(&mut self, time: Time)
        requires
            old(self)@.end_time is Unknown,
        ensures
            final(self)@ == (CallbackInstanceView { end_time: Known::Known(time), ..old(self)@ }),
    {
        self.end_time = Known::Known(time);
    }

    pub fn get_callback(&self) -> (r: CallbackRef)
        ensures
            r == self@.callback,
    {
        self.callback
    }

    pub fn get_start_time(&self) -> (r: Time)
        ensures
            r == self@.start_time,
    {
        self.start_time
    }

    pub fn get_end_time(&self) -> (r: Option<Time>)
        ensures
            r == known_to_option(self@.end_time),
    {
        self.end_time.into_option()
    }

    pub fn get_trigger(&self) -> (r: &CallbackTrigger)
        ensures
            *r == self@.trigger,
    {
        &self.trigger
    }
}

} // verus!
