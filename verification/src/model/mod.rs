//! The objects of a ROS 2 application as they are reconstructed from trace
//! events, and the references that link them.
use vstd::prelude::*;
use vstd::string::*;

use crate::known::{known_view, unknown_or_eq, Known};
use crate::text::{hex_text, push_hex};

pub mod node;
pub mod subscriber;
pub mod publisher;
pub mod service;
pub mod timer;
pub mod callback;
pub mod messages;
pub mod spin;
pub mod store;
pub mod display;
pub mod time_order;

pub use callback::{fresh_callback_view, Callback, CallbackInstance, CallbackInstanceView, CallbackView};
pub use messages::{
    fresh_publication_view, fresh_subscription_view, publication_time, receive_time,
    PublicationMessage, PublicationMessageView, SubscriptionMessage, SubscriptionMessageView,
};
pub use node::{fresh_node_view, Node, NodeView};
pub use publisher::{fresh_publisher_view, publisher_is_stub, Publisher, PublisherView};
pub use service::{fresh_client_view, fresh_service_view, Client, ClientView, Service, ServiceView};
pub use spin::{timeout_nanos, SpinInstance, SpinInstanceView};
pub use store::{callback_start, can_start, empty_store, trigger_of, ObjectStore, ObjectStoreView};
pub use subscriber::{fresh_subscriber_view, taken_after_push, Subscriber, SubscriberView, TAKEN_MESSAGES_MAX};
pub use timer::{fresh_timer_view, Timer, TimerView};


verus! {

/// Size of the main part of a DDS GID.
pub const GID_SIZE: usize = 16;

/// Size of the suffix that RMW appends to a DDS GID.
pub const GID_SUFFIX_SIZE: usize = 8;

/// Size of the GID carried by RMW init events.
pub const RMW_GID_SIZE: usize = 24;

/// An object parameter was set a second time.
#[derive(Debug)]
pub struct AlreadySetError<T, U> {
    object: T,
    new_value: U,
    msg: &'static str,
}

impl<T, U> AlreadySetError<T, U> {
    pub closed spec fn spec_new_value(&self) -> U {
        self.new_value
    }

    pub closed spec fn spec_msg(&self) -> &'static str {
        self.msg
    }

    pub closed spec fn spec_object(&self) -> T {
        self.object
    }

    pub(crate) fn new(object: T, new_value: U, msg: &'static str) -> (r: Self)
        ensures
            r.spec_object() == object,
            r.spec_new_value() == new_value,
            r.spec_msg() == msg,
    {
        AlreadySetError { object, new_value, msg }
    }

    /// The object whose parameter was already set.
    pub fn object(&self) -> (r: &T)
        ensures
            *r == self.spec_object(),
    {
        &self.object
    }

    pub fn new_value(&self) -> (r: &U)
        ensures
            *r == self.spec_new_value(),
    {
        &self.new_value
    }

    pub fn msg(&self) -> (r: &'static str)
        ensures
            r == self.spec_msg(),
    {
        self.msg
    }
}

/// An object was initialized a second time by an initialization event.
#[derive(Debug, Clone, Copy)]
pub struct AlreadyInitializedError {
    object: &'static str,
    event_name: &'static str,
}

impl AlreadyInitializedError {
    pub closed spec fn spec_new(object: &'static str, event_name: &'static str) -> AlreadyInitializedError {
        AlreadyInitializedError { object, event_name }
    }

    pub closed spec fn spec_object(&self) -> &'static str {
        self.object
    }

    pub closed spec fn spec_event_name(&self) -> &'static str {
        self.event_name
    }

    pub fn new(object: &'static str, event_name: &'static str) -> (r: Self)
        ensures
            r == AlreadyInitializedError::spec_new(object, event_name),
            r.spec_object() == object,
            r.spec_event_name() == event_name,
    {
        Self { object, event_name }
    }

    pub fn object(&self) -> (r: &'static str)
        ensures
            r == self.spec_object(),
    {
        self.object
    }

    pub fn event_name(&self) -> (r: &'static str)
        ensures
            r == self.spec_event_name(),
    {
        self.event_name
    }
}

/// A point in time, in nanoseconds since the UNIX epoch (1970-01-01 00:00:00 UTC).
#[derive(Debug, Clone, Copy, PartialEq, Eq, Ord, Hash)]
pub struct Time {
    timestamp: i64,
}

impl Time {
    /// Nanoseconds since the UNIX epoch.
    pub closed spec fn nanos(self) -> i64 {
        self.timestamp
    }

    /// The time `nanos` nanoseconds after the UNIX epoch.
    pub closed spec fn from_nanos_spec(nanos: i64) -> Time {
        Time { timestamp: nanos }
    }

    /// Reading back the nanoseconds of a time built from them gives them back.
    pub proof fn lemma_from_nanos(nanos: i64)
        ensures
            Time::from_nanos_spec(nanos).nanos() == nanos,
    {
    }

    pub fn from_nanos(nanos: i64) -> (r: Self)
        ensures
            r.nanos() == nanos,
            r == Time::from_nanos_spec(nanos),
    {
        Self { timestamp: nanos }
    }

    pub fn timestamp_nanos(self) -> (r: i64)
        ensures
            r == self.nanos(),
    {
        self.timestamp
    }
}

/// The full name of a ROS node: its namespace followed by its name.
#[derive(Debug)]
pub struct Name {
    full_name: String,
    namespace_len: usize,
}

impl View for Name {
    /// The namespace and the name.
    type V = (Seq<char>, Seq<char>);

    closed spec fn view(&self) -> (Seq<char>, Seq<char>) {
        (
            self.full_name@.subrange(0, self.namespace_len as int),
            self.full_name@.subrange(self.namespace_len as int, self.full_name@.len() as int),
        )
    }
}

/// The full name of a (namespace, name) pair.
pub open spec fn full_name_of(n: (Seq<char>, Seq<char>)) -> Seq<char> {
    n.0 + n.1
}

impl Name {
    /// The namespace length never exceeds the full name.
    #[verifier::type_invariant]
    closed spec fn inv(&self) -> bool {
        self.namespace_len <= self.full_name@.len()
    }

    pub closed spec fn spec_full_name(&self) -> Seq<char> {
        self.full_name@
    }

    pub fn new(namespace: &str, name: &str) -> (r: Self)
        ensures
            r@ == (namespace@, name@),
            r.spec_full_name() == namespace@ + name@,
    {
        let mut full_name = String::from_str(namespace);
        full_name.append(name);
        let namespace_len = namespace.unicode_len();
        let r = Self { full_name, namespace_len };
        assert(r@.0 =~= namespace@);
        assert(r@.1 =~= name@);
        r
    }

    pub fn get_full_name(&self) -> (r: &str)
        ensures
            r@ == full_name_of(self@),
    {
        proof {
            use_type_invariant(self);
            assert(self.full_name@ =~= self@.0 + self@.1);
        }
        self.full_name.as_str()
    }

    pub fn get_namespace(&self) -> (r: &str)
        ensures
            r@ == self@.0,
    {
        proof { use_type_invariant(self); }
        self.full_name.as_str().substring_char(0, self.namespace_len)
    }

    pub fn get_name(&self) -> (r: &str)
        ensures
            r@ == self@.1,
    {
        proof { use_type_invariant(self); }
        let s = self.full_name.as_str();
        let len = s.unicode_len();
        s.substring_char(self.namespace_len, len)
    }
}

/// Reference to a node held by an [`ObjectStore`]: its position in the store.
#[derive(Debug, Clone, Copy, PartialEq, Eq, Hash, PartialOrd, Ord)]
pub struct NodeRef(pub usize);

impl NodeRef {
    pub fn index(&self) -> (r: usize)
        ensures
            r == self.0,
    {
        self.0
    }

    pub fn same(&self, other: &Self) -> (b: bool)
        ensures
            b == (*self == *other),
    {
        self.0 == other.0
    }
}

/// Reference to a subscriber held by an [`ObjectStore`]: its position in the store.
#[derive(Debug, Clone, Copy, PartialEq, Eq, Hash, PartialOrd, Ord)]
pub struct SubscriberRef(pub usize);

impl SubscriberRef {
    pub fn index(&self) -> (r: usize)
        ensures
            r == self.0,
    {
        self.0
    }

    pub fn same(&self, other: &Self) -> (b: bool)
        ensures
            b == (*self == *other),
    {
        self.0 == other.0
    }
}

/// Reference to a publisher held by an [`ObjectStore`]: its position in the store.
#[derive(Debug, Clone, Copy, PartialEq, Eq, Hash, PartialOrd, Ord)]
pub struct PublisherRef(pub usize);

impl PublisherRef {
    pub fn index(&self) -> (r: usize)
        ensures
            r == self.0,
    {
        self.0
    }

    pub fn same(&self, other: &Self) -> (b: bool)
        ensures
            b == (*self == *other),
    {
        self.0 == other.0
    }
}

/// Reference to a service held by an [`ObjectStore`]: its position in the store.
#[derive(Debug, Clone, Copy, PartialEq, Eq, Hash, PartialOrd, Ord)]
pub struct ServiceRef(pub usize);

impl ServiceRef {
    pub fn index(&self) -> (r: usize)
        ensures
            r == self.0,
    {
        self.0
    }

    pub fn same(&self, other: &Self) -> (b: bool)
        ensures
            b == (*self == *other),
    {
        self.0 == other.0
    }
}

/// Reference to a client held by an [`ObjectStore`]: its position in the store.
#[derive(Debug, Clone, Copy, PartialEq, Eq, Hash, PartialOrd, Ord)]
pub struct ClientRef(pub usize);

impl ClientRef {
    pub fn index(&self) -> (r: usize)
        ensures
            r == self.0,
    {
        self.0
    }

    pub fn same(&self, other: &Self) -> (b: bool)
        ensures
            b == (*self == *other),
    {
        self.0 == other.0
    }
}

/// Reference to a timer held by an [`ObjectStore`]: its position in the store.
#[derive(Debug, Clone, Copy, PartialEq, Eq, Hash, PartialOrd, Ord)]
pub struct TimerRef(pub usize);

impl TimerRef {
    pub fn index(&self) -> (r: usize)
        ensures
            r == self.0,
    {
        self.0
    }

    pub fn same(&self, other: &Self) -> (b: bool)
        ensures
            b == (*self == *other),
    {
        self.0 == other.0
    }
}

/// Reference to a callback held by an [`ObjectStore`]: its position in the store.
#[derive(Debug, Clone, Copy, PartialEq, Eq, Hash, PartialOrd, Ord)]
pub struct CallbackRef(pub usize);

impl CallbackRef {
    pub fn index(&self) -> (r: usize)
        ensures
            r == self.0,
    {
        self.0
    }

    pub fn same(&self, other: &Self) -> (b: bool)
        ensures
            b == (*self == *other),
    {
        self.0 == other.0
    }
}

/// Reference to a published message held by an [`ObjectStore`]: its position in the store.
#[derive(Debug, Clone, Copy, PartialEq, Eq, Hash, PartialOrd, Ord)]
pub struct PublicationMessageRef(pub usize);

impl PublicationMessageRef {
    pub fn index(&self) -> (r: usize)
        ensures
            r == self.0,
    {
        self.0
    }

    pub fn same(&self, other: &Self) -> (b: bool)
        ensures
            b == (*self == *other),
    {
        self.0 == other.0
    }
}

/// Reference to a received message held by an [`ObjectStore`]: its position in the store.
#[derive(Debug, Clone, Copy, PartialEq, Eq, Hash, PartialOrd, Ord)]
pub struct SubscriptionMessageRef(pub usize);

impl SubscriptionMessageRef {
    pub fn index(&self) -> (r: usize)
        ensures
            r == self.0,
    {
        self.0
    }

    pub fn same(&self, other: &Self) -> (b: bool)
        ensures
            b == (*self == *other),
    {
        self.0 == other.0
    }
}

/// Reference to a callback execution held by an [`ObjectStore`]: its position in the store.
#[derive(Debug, Clone, Copy, PartialEq, Eq, Hash, PartialOrd, Ord)]
pub struct CallbackInstanceRef(pub usize);

impl CallbackInstanceRef {
    pub fn index(&self) -> (r: usize)
        ensures
            r == self.0,
    {
        self.0
    }

    pub fn same(&self, other: &Self) -> (b: bool)
        ensures
            b == (*self == *other),
    {
        self.0 == other.0
    }
}

/// Reference to an executor spin held by an [`ObjectStore`]: its position in the store.
#[derive(Debug, Clone, Copy, PartialEq, Eq, Hash, PartialOrd, Ord)]
pub struct SpinInstanceRef(pub usize);

impl SpinInstanceRef {
    pub fn index(&self) -> (r: usize)
        ensures
            r == self.0,
    {
        self.0
    }

    pub fn same(&self, other: &Self) -> (b: bool)
        ensures
            b == (*self == *other),
    {
        self.0 == other.0
    }
}

/// The kind of object that invokes a callback.
#[derive(Debug, Clone, Copy, PartialEq, Eq, Hash)]
pub enum CallbackType {
    Subscription,
    Service,
    Timer,
}

impl CallbackType {
    /// The name that the analyses print for the callback type.
    pub fn as_str(&self) -> (r: &'static str)
        ensures
            match self {
                CallbackType::Subscription => r@ == "Subscription"@,
                CallbackType::Service => r@ == "Service"@,
                CallbackType::Timer => r@ == "Timer"@,
            },
    {
        proof {
            reveal_strlit("Subscription");
            reveal_strlit("Service");
            reveal_strlit("Timer");
        }
        match self {
            CallbackType::Subscription => "Subscription",
            CallbackType::Service => "Service",
            CallbackType::Timer => "Timer",
        }
    }
}

/// The object whose activity invokes a callback.
#[derive(Debug, Clone, Copy, PartialEq, Eq, Hash)]
pub enum CallbackCaller {
    Subscription(SubscriberRef),
    Service(ServiceRef),
    Timer(TimerRef),
}

/// The callback type of a caller.
pub open spec fn caller_type(c: CallbackCaller) -> CallbackType {
    match c {
        CallbackCaller::Subscription(_) => CallbackType::Subscription,
        CallbackCaller::Service(_) => CallbackType::Service,
        CallbackCaller::Timer(_) => CallbackType::Timer,
    }
}

impl CallbackCaller {
    /// The type of callback this caller invokes.
    pub fn get_type(&self) -> (r: CallbackType)
        ensures
            r == caller_type(*self),
    {
        match self {
            CallbackCaller::Subscription(_) => CallbackType::Subscription,
            CallbackCaller::Service(_) => CallbackType::Service,
            CallbackCaller::Timer(_) => CallbackType::Timer,
        }
    }

    pub fn unwrap_subscription_ref(&self) -> (r: &SubscriberRef)
        requires
            *self is Subscription,
        ensures
            *self == CallbackCaller::Subscription(*r),
    {
        match self {
            CallbackCaller::Subscription(s) => s,
            _ => vstd::pervasive::unreached(),
        }
    }

    pub fn unwrap_service_ref(&self) -> (r: &ServiceRef)
        requires
            *self is Service,
        ensures
            *self == CallbackCaller::Service(*r),
    {
        match self {
            CallbackCaller::Service(s) => s,
            _ => vstd::pervasive::unreached(),
        }
    }

    pub fn unwrap_timer_ref(&self) -> (r: &TimerRef)
        requires
            *self is Timer,
        ensures
            *self == CallbackCaller::Timer(*r),
    {
        match self {
            CallbackCaller::Timer(t) => t,
            _ => vstd::pervasive::unreached(),
        }
    }
}

/// What started a callback execution.
#[derive(Debug, Clone, Copy, PartialEq, Eq, Hash)]
pub enum CallbackTrigger {
    SubscriptionMessage(SubscriptionMessageRef),
    Service(ServiceRef),
    Timer(TimerRef),
}

/// The callback type of a trigger.
pub open spec fn trigger_type(t: CallbackTrigger) -> CallbackType {
    match t {
        CallbackTrigger::SubscriptionMessage(_) => CallbackType::Subscription,
        CallbackTrigger::Service(_) => CallbackType::Service,
        CallbackTrigger::Timer(_) => CallbackType::Timer,
    }
}

impl CallbackTrigger {
    /// The type of callback this trigger starts.
    pub fn get_type(&self) -> (r: CallbackType)
        ensures
            r == trigger_type(*self),
    {
        match self {
            CallbackTrigger::SubscriptionMessage(_) => CallbackType::Subscription,
            CallbackTrigger::Service(_) => CallbackType::Service,
            CallbackTrigger::Timer(_) => CallbackType::Timer,
        }
    }
}

/// A value that is fully known, partially known, or not known at all.
#[derive(Debug, Clone, Copy, PartialEq, Eq)]
pub enum PartiallyKnown<T, U> {
    Fully(T),
    Partially(U),
    Unknown,
}

/// The GID that DDS gives a publisher or subscriber.
#[derive(Debug, Clone, Copy, PartialEq, Eq, Hash)]
pub struct DdsGid {
    gid: [u8; GID_SIZE],
}

/// The GID that RMW gives a publisher or subscriber: a DDS GID and a suffix.
#[derive(Debug, Clone, Copy, PartialEq, Eq, Hash)]
pub struct RmwGid {
    gid: DdsGid,
    gid_suffix: [u8; GID_SUFFIX_SIZE],
}

/// A GID of either kind.
#[derive(Debug, Clone, Copy, PartialEq, Eq, Hash)]
pub enum Gid {
    DdsGid(DdsGid),
    RmwGid(RmwGid),
}

impl View for DdsGid {
    type V = Seq<u8>;

    closed spec fn view(&self) -> Seq<u8> {
        self.gid@
    }
}

impl View for RmwGid {
    /// All bytes of the GID, the suffix last.
    type V = Seq<u8>;

    closed spec fn view(&self) -> Seq<u8> {
        self.gid.gid@ + self.gid_suffix@
    }
}

/// The text of a DDS GID: its first twelve bytes in hexadecimal, a dash, then the
/// others.
pub open spec fn dds_gid_text(g: Seq<u8>) -> Seq<char> {
    hex_text(g.subrange(0, 12)) + "-"@ + hex_text(g.subrange(12, g.len() as int))
}

/// The text of an RMW GID: the text of its DDS part, a dash, then the suffix in
/// hexadecimal.
pub open spec fn rmw_gid_text(g: Seq<u8>) -> Seq<char> {
    dds_gid_text(g.subrange(0, GID_SIZE as int)) + "-"@ + hex_text(g.subrange(GID_SIZE as int, g.len() as int))
}

impl DdsGid {
    /// The text of the GID (see [`dds_gid_text`]).
    pub fn to_string(&self) -> (r: String)
        ensures
            r@ == dds_gid_text(self@),
    {
        let mut s = String::new();
        push_hex(&mut s, &self.gid[0..12]);
        s.append("-");
        push_hex(&mut s, &self.gid[12..GID_SIZE]);
        s
    }
}

impl Gid {
    /// The text of the GID, of either kind.
    pub fn to_string(&self) -> (r: String)
        ensures
            r@ == match *self {
                Gid::DdsGid(g) => dds_gid_text(g@),
                Gid::RmwGid(g) => rmw_gid_text(g@),
            },
    {
        match self {
            Gid::DdsGid(g) => g.to_string(),
            Gid::RmwGid(g) => g.to_string(),
        }
    }
}

impl RmwGid {
    /// The text of the GID (see [`rmw_gid_text`]).
    pub fn to_string(&self) -> (r: String)
        ensures
            r@ == rmw_gid_text(self@),
    {
        let mut s = self.gid.to_string();
        s.append("-");
        push_hex(&mut s, &self.gid_suffix);
        proof {
            assert(self@.subrange(0, GID_SIZE as int) =~= self.gid@);
            assert(self@.subrange(GID_SIZE as int, self@.len() as int) =~= self.gid_suffix@);
        }
        s
    }

    /// Splits the bytes of an RMW GID into its DDS part and its suffix.
    pub fn new(gid: [u8; RMW_GID_SIZE]) -> (r: Self)
        ensures
            r@ == gid@,
    {
        let main: [u8; GID_SIZE] = [
            gid[0], gid[1], gid[2], gid[3], gid[4], gid[5], gid[6], gid[7],
            gid[8], gid[9], gid[10], gid[11], gid[12], gid[13], gid[14], gid[15],
        ];
        let suffix: [u8; GID_SUFFIX_SIZE] = [
            gid[16], gid[17], gid[18], gid[19], gid[20], gid[21], gid[22], gid[23],
        ];
        let r = Self { gid: DdsGid { gid: main }, gid_suffix: suffix };
        assert(r@ =~= gid@);
        r
    }

    /// The DDS part of the GID.
    pub fn dds_gid(&self) -> (r: DdsGid)
        ensures
            r@ == self@.subrange(0, GID_SIZE as int),
    {
        let r = self.gid;
        assert(r@ =~= self@.subrange(0, GID_SIZE as int));
        r
    }

    /// Byte-wise equality of two GIDs.
    pub fn same(&self, other: &RmwGid) -> (b: bool)
        ensures
            b == (self@ == other@),
    {
        let mut i: usize = 0;
        while i < GID_SIZE
            invariant
                i <= GID_SIZE,
                forall|j: int| 0 <= j < i ==> self.gid.gid@[j] == other.gid.gid@[j],
            decreases GID_SIZE - i,
        {
            if self.gid.gid[i] != other.gid.gid[i] {
                assert(self@[i as int] != other@[i as int]);
                return false;
            }
            i += 1;
        }
        let mut k: usize = 0;
        while k < GID_SUFFIX_SIZE
            invariant
                k <= GID_SUFFIX_SIZE,
                forall|j: int| 0 <= j < GID_SIZE ==> self.gid.gid@[j] == other.gid.gid@[j],
                forall|j: int| 0 <= j < k ==> self.gid_suffix@[j] == other.gid_suffix@[j],
            decreases GID_SUFFIX_SIZE - k,
        {
            if self.gid_suffix[k] != other.gid_suffix[k] {
                assert(self@[GID_SIZE + k] != other@[GID_SIZE + k]);
                return false;
            }
            k += 1;
        }
        assert(self@ =~= other@);
        true
    }
}

impl Known<RmwGid> {
    /// True when the GID is still unknown or already has the bytes of `other`.
    pub fn is_unknown_or_same(&self, other: &RmwGid) -> (b: bool)
        ensures
            b == unknown_or_eq(known_view(*self), other@),
    {
        match self {
            Known::Known(g) => g.same(other),
            Known::Unknown => true,
        }
    }
}


} // verus!
