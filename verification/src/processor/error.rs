use vstd::prelude::*;

use crate::events_common::{Context, Time};
use crate::model::{
    AlreadyInitializedError, CallbackRef, ClientRef, NodeRef, PublicationMessageRef, PublisherRef,
    ServiceRef, SubscriberRef, SubscriptionMessageRef, TimerRef,
};
use crate::raw_events;

verus! {

/// An object of the store, named in an error.
#[derive(Debug, Clone, Copy, PartialEq, Eq)]
pub enum Object {
    Node(NodeRef),
    Subscriber(SubscriberRef),
    Publisher(PublisherRef),
    Service(ServiceRef),
    Client(ClientRef),
    Timer(TimerRef),
    Callback(CallbackRef),
    PublishedMessage(PublicationMessageRef),
    SubscribedMessage(SubscriptionMessageRef),
}

/// The kind of an [`Object`].
#[derive(Debug, Clone, Copy, PartialEq, Eq, Hash)]
pub enum ObjectType {
    Node,
    Subscriber,
    Publisher,
    Service,
    Client,
    Timer,
    Callback,
    PublishedMessage,
    SubscribedMessage,
}

/// The kind of an object.
pub open spec fn object_type_of(o: Object) -> ObjectType {
    match o {
        Object::Node(_) => ObjectType::Node,
        Object::Subscriber(_) => ObjectType::Subscriber,
        Object::Publisher(_) => ObjectType::Publisher,
        Object::Service(_) => ObjectType::Service,
        Object::Client(_) => ObjectType::Client,
        Object::Timer(_) => ObjectType::Timer,
        Object::Callback(_) => ObjectType::Callback,
        Object::PublishedMessage(_) => ObjectType::PublishedMessage,
        Object::SubscribedMessage(_) => ObjectType::SubscribedMessage,
    }
}

impl Object {
    pub fn as_type(&self) -> (r: ObjectType)
        ensures
            r == object_type_of(*self),
    {
        match self {
            Self::Node(_) => ObjectType::Node,
            Self::Subscriber(_) => ObjectType::Subscriber,
            Self::Publisher(_) => ObjectType::Publisher,
            Self::Service(_) => ObjectType::Service,
            Self::Client(_) => ObjectType::Client,
            Self::Timer(_) => ObjectType::Timer,
            Self::Callback(_) => ObjectType::Callback,
            Self::PublishedMessage(_) => ObjectType::PublishedMessage,
            Self::SubscribedMessage(_) => ObjectType::SubscribedMessage,
        }
    }
}

/// An event would create an object whose key another live object already has.
#[derive(Debug, Clone)]
pub struct AlreadyExists {
    key: u64,
    key_variable: &'static str,
    new_object: Object,
    old_object: Object,
}

impl AlreadyExists {
    pub closed spec fn spec_new(key: u64, key_variable: &'static str, new_object: Object, old_object: Object) -> AlreadyExists {
        AlreadyExists { key, key_variable, new_object, old_object }
    }

    pub closed spec fn spec_key(&self) -> u64 {
        self.key
    }

    pub closed spec fn spec_key_variable(&self) -> &'static str {
        self.key_variable
    }

    pub closed spec fn spec_new_object(&self) -> Object {
        self.new_object
    }

    pub closed spec fn spec_old_object(&self) -> Object {
        self.old_object
    }

    pub fn new(key: u64, key_variable: &'static str, new_object: Object, old_object: Object) -> (r: Self)
        ensures
            r == AlreadyExists::spec_new(key, key_variable, new_object, old_object),
            r.spec_key() == key,
            r.spec_key_variable() == key_variable,
            r.spec_new_object() == new_object,
            r.spec_old_object() == old_object,
    {
        Self { key, key_variable, new_object, old_object }
    }

    /// The objects' key is their id.
    pub fn with_id(id: u64, old_object: Object, new_object: Object) -> (r: Self)
        ensures
            r == AlreadyExists::spec_new(id, "id", new_object, old_object),
            r.spec_key() == id,
            r.spec_key_variable() == "id",
            r.spec_new_object() == new_object,
            r.spec_old_object() == old_object,
    {
        Self::new(id, "id", new_object, old_object)
    }

    /// The objects' key is their RCL handle.
    pub fn by_rcl_handle(rcl_handle: u64, old_object: Object, new_object: Object) -> (r: Self)
        ensures
            r == AlreadyExists::spec_new(rcl_handle, "rcl_handle", new_object, old_object),
            r.spec_key() == rcl_handle,
            r.spec_key_variable() == "rcl_handle",
            r.spec_new_object() == new_object,
            r.spec_old_object() == old_object,
    {
        Self::new(rcl_handle, "rcl_handle", new_object, old_object)
    }

    /// The objects' key is their rclcpp handle.
    pub fn by_rclcpp_handle(rclcpp_handle: u64, old_object: Object, new_object: Object) -> (r: Self)
        ensures
            r == AlreadyExists::spec_new(rclcpp_handle, "rclcpp_handle", new_object, old_object),
            r.spec_key() == rclcpp_handle,
            r.spec_key_variable() == "rclcpp_handle",
            r.spec_new_object() == new_object,
            r.spec_old_object() == old_object,
    {
        Self::new(rclcpp_handle, "rclcpp_handle", new_object, old_object)
    }

    pub fn key(&self) -> (r: u64)
        ensures
            r == self.spec_key(),
    {
        self.key
    }

    pub fn key_variable(&self) -> (r: &'static str)
        ensures
            r == self.spec_key_variable(),
    {
        self.key_variable
    }

    pub fn new_object(&self) -> (r: Object)
        ensures
            r == self.spec_new_object(),
    {
        self.new_object
    }

    pub fn old_object(&self) -> (r: Object)
        ensures
            r == self.spec_old_object(),
    {
        self.old_object
    }

    /// Attaches the ROS 2 event whose processing failed.
    pub fn with_ros2_event(self, event: raw_events::ros2::Event, time: Time, context: &Context) -> (r: ProcessingEvent)
        ensures
            r.spec_cause() == Causes::AlreadyExists(self),
            r.spec_timestamp() == time,
    {
        ProcessingEvent::new(raw_events::Event::Ros2(event), time, context.clone(), Causes::AlreadyExists(self))
    }
}

/// An event refers to an object that the processor does not know.
#[derive(Debug, Clone, Copy)]
pub struct NotFound {
    key: u64,
    object_type: ObjectType,
    key_variable: &'static str,
}

impl NotFound {
    pub closed spec fn spec_new(key: u64, key_variable: &'static str, object_type: ObjectType) -> NotFound {
        NotFound { key, object_type, key_variable }
    }

    pub closed spec fn spec_key(&self) -> u64 {
        self.key
    }

    pub closed spec fn spec_object_type(&self) -> ObjectType {
        self.object_type
    }

    pub closed spec fn spec_key_variable(&self) -> &'static str {
        self.key_variable
    }

    pub fn new(key: u64, key_variable: &'static str, object_type: ObjectType) -> (r: Self)
        ensures
            r == NotFound::spec_new(key, key_variable, object_type),
            r.spec_key() == key,
            r.spec_key_variable() == key_variable,
            r.spec_object_type() == object_type,
    {
        Self { key, object_type, key_variable }
    }

    pub fn node(key: u64) -> (r: Self)
        ensures
            r == NotFound::spec_new(key, "rcl_handle", ObjectType::Node),
            r.spec_key() == key,
            r.spec_key_variable() == "rcl_handle",
            r.spec_object_type() == ObjectType::Node,
    {
        Self::new(key, "rcl_handle", ObjectType::Node)
    }

    pub fn subscriber(key: u64, key_variable: &'static str) -> (r: Self)
        ensures
            r == NotFound::spec_new(key, key_variable, ObjectType::Subscriber),
            r.spec_key() == key,
            r.spec_key_variable() == key_variable,
            r.spec_object_type() == ObjectType::Subscriber,
    {
        Self::new(key, key_variable, ObjectType::Subscriber)
    }

    pub fn publisher(key: u64, key_variable: &'static str) -> (r: Self)
        ensures
            r == NotFound::spec_new(key, key_variable, ObjectType::Publisher),
            r.spec_key() == key,
            r.spec_key_variable() == key_variable,
            r.spec_object_type() == ObjectType::Publisher,
    {
        Self::new(key, key_variable, ObjectType::Publisher)
    }

    pub fn service(key: u64, key_variable: &'static str) -> (r: Self)
        ensures
            r == NotFound::spec_new(key, key_variable, ObjectType::Service),
            r.spec_key() == key,
            r.spec_key_variable() == key_variable,
            r.spec_object_type() == ObjectType::Service,
    {
        Self::new(key, key_variable, ObjectType::Service)
    }

    pub fn client(key: u64, key_variable: &'static str) -> (r: Self)
        ensures
            r == NotFound::spec_new(key, key_variable, ObjectType::Client),
            r.spec_key() == key,
            r.spec_key_variable() == key_variable,
            r.spec_object_type() == ObjectType::Client,
    {
        Self::new(key, key_variable, ObjectType::Client)
    }

    pub fn timer(key: u64) -> (r: Self)
        ensures
            r == NotFound::spec_new(key, "rcl_handle", ObjectType::Timer),
            r.spec_key() == key,
            r.spec_key_variable() == "rcl_handle",
            r.spec_object_type() == ObjectType::Timer,
    {
        Self::new(key, "rcl_handle", ObjectType::Timer)
    }

    pub fn callback(key: u64) -> (r: Self)
        ensures
            r == NotFound::spec_new(key, "id", ObjectType::Callback),
            r.spec_key() == key,
            r.spec_key_variable() == "id",
            r.spec_object_type() == ObjectType::Callback,
    {
        Self::new(key, "id", ObjectType::Callback)
    }

    pub fn published_message(key: u64) -> (r: Self)
        ensures
            r == NotFound::spec_new(key, "address", ObjectType::PublishedMessage),
            r.spec_key() == key,
            r.spec_key_variable() == "address",
            r.spec_object_type() == ObjectType::PublishedMessage,
    {
        Self::new(key, "address", ObjectType::PublishedMessage)
    }

    pub fn subscribed_message(key: u64) -> (r: Self)
        ensures
            r == NotFound::spec_new(key, "address", ObjectType::SubscribedMessage),
            r.spec_key() == key,
            r.spec_key_variable() == "address",
            r.spec_object_type() == ObjectType::SubscribedMessage,
    {
        Self::new(key, "address", ObjectType::SubscribedMessage)
    }

    pub fn key(&self) -> (r: u64)
        ensures
            r == self.spec_key(),
    {
        self.key
    }

    pub fn object_type(&self) -> (r: ObjectType)
        ensures
            r == self.spec_object_type(),
    {
        self.object_type
    }

    pub fn key_variable(&self) -> (r: &'static str)
        ensures
            r == self.spec_key_variable(),
    {
        self.key_variable
    }

    /// The missing object is a dependency of `object`.
    pub fn dependent_object(self, object: Object) -> (r: ObjectMissingDependency)
        ensures
            r == ObjectMissingDependency::spec_new(object, self),
            r.spec_object() == object,
            r.spec_cause() == self,
    {
        ObjectMissingDependency { object, cause: self }
    }

    /// Attaches the ROS 2 event whose processing failed.
    pub fn with_ros2_event(self, event: raw_events::ros2::Event, time: Time, context: &Context) -> (r: ProcessingEvent)
        ensures
            r.spec_cause() == Causes::NotFound(self),
            r.spec_timestamp() == time,
    {
        ProcessingEvent::new(raw_events::Event::Ros2(event), time, context.clone(), Causes::NotFound(self))
    }

    /// Attaches the R2R event whose processing failed.
    pub fn with_r2r_event(self, event: raw_events::r2r::Event, time: Time, context: &Context) -> (r: ProcessingEvent)
        ensures
            r.spec_cause() == Causes::NotFound(self),
            r.spec_timestamp() == time,
    {
        ProcessingEvent::new(raw_events::Event::R2r(event), time, context.clone(), Causes::NotFound(self))
    }
}

/// An object cannot be completed because an object it depends on is missing.
#[derive(Debug, Clone, Copy)]
pub struct ObjectMissingDependency {
    object: Object,
    cause: NotFound,
}

impl ObjectMissingDependency {
    pub closed spec fn spec_new(object: Object, cause: NotFound) -> ObjectMissingDependency {
        ObjectMissingDependency { object, cause }
    }

    pub closed spec fn spec_object(&self) -> Object {
        self.object
    }

    pub closed spec fn spec_cause(&self) -> NotFound {
        self.cause
    }

    pub fn object(&self) -> (r: Object)
        ensures
            r == self.spec_object(),
    {
        self.object
    }

    pub fn cause(&self) -> (r: NotFound)
        ensures
            r == self.spec_cause(),
    {
        self.cause
    }

    /// Attaches the ROS 2 event whose processing failed.
    pub fn with_ros2_event(self, event: raw_events::ros2::Event, time: Time, context: &Context) -> (r: ProcessingEvent)
        ensures
            r.spec_cause() == Causes::ObjectMissingDependency(self),
            r.spec_timestamp() == time,
    {
        ProcessingEvent::new(raw_events::Event::Ros2(event), time, context.clone(), Causes::ObjectMissingDependency(self))
    }
}

/// Why an event could not be processed.
#[derive(Debug, Clone)]
pub enum Causes {
    AlreadyExists(AlreadyExists),
    NotFound(NotFound),
    ObjectMissingDependency(ObjectMissingDependency),
    AlreadyInitialized(AlreadyInitializedError, Object),
}

/// An event that could not be processed, with why.
#[derive(Debug, Clone)]
pub struct ProcessingEvent {
    raw_event: raw_events::Event,
    timestamp: Time,
    context: Context,
    cause: Causes,
}

impl ProcessingEvent {
    pub closed spec fn spec_cause(&self) -> Causes {
        self.cause
    }

    pub closed spec fn spec_timestamp(&self) -> Time {
        self.timestamp
    }

    pub fn new(raw_event: raw_events::Event, timestamp: Time, context: Context, cause: Causes) -> (r: Self)
        ensures
            r.spec_cause() == cause,
            r.spec_timestamp() == timestamp,
    {
        Self { raw_event, timestamp, context, cause }
    }

    pub fn raw_event(&self) -> &raw_events::Event {
        &self.raw_event
    }

    pub fn timestamp(&self) -> (r: Time)
        ensures
            r == self.spec_timestamp(),
    {
        self.timestamp
    }

    pub fn context(&self) -> &Context {
        &self.context
    }

    pub fn cause(&self) -> (r: &Causes)
        ensures
            *r == self.spec_cause(),
    {
        &self.cause
    }
}

/// Why the processor rejected an event.
#[derive(Debug, Clone)]
pub enum ProcessorError {
    /// The event refers to missing objects or conflicts with existing ones.
    Event(ProcessingEvent),
    /// The event would initialize an object a second time.
    Cause(Causes),
    /// The event would set a parameter of `object` a second time; `message` says which.
    AlreadySet { object: Object, message: &'static str },
}

/// What a [`ProcessorError`] says, leaving out the copy of the event and its context.
pub enum Failure {
    /// Processing the event recorded at the given time failed for the cause.
    Event(Causes, Time),
    /// An object would be initialized a second time.
    Cause(Causes),
    /// A parameter of the object would be set a second time.
    AlreadySet(Object, &'static str),
}

/// The failure that an error reports.
pub open spec fn failure_of(e: ProcessorError) -> Failure {
    match e {
        ProcessorError::Event(pe) => Failure::Event(pe.spec_cause(), pe.spec_timestamp()),
        ProcessorError::Cause(c) => Failure::Cause(c),
        ProcessorError::AlreadySet { object, message } => Failure::AlreadySet(object, message),
    }
}

/// The outcome of a processing step, its error reduced to the failure it reports.
pub open spec fn outcome<T>(r: Result<T, ProcessorError>) -> Result<T, Failure> {
    match r {
        Ok(v) => Ok(v),
        Err(e) => Err(failure_of(e)),
    }
}

/// The failure of an event that refers to an object the processor does not know.
pub open spec fn not_found(key: u64, key_variable: &'static str, object_type: ObjectType, time: Time) -> Failure {
    Failure::Event(Causes::NotFound(NotFound::spec_new(key, key_variable, object_type)), time)
}

} // verus!
