use vstd::prelude::*;

use crate::known::{known_to_option, Known};
use crate::model::{AlreadySetError, PartiallyKnown, PublicationMessageRef, PublisherRef, SubscriberRef, Time};

verus! {

/// A message as it passes through the publishing layers (rclcpp, rcl, rmw).
#[derive(Debug)]
pub struct PublicationMessage {
    ptr: u64,
    publisher: Known<PublisherRef>,
    sender_timestamp: Known<Time>,
    rmw_publish_time: Known<Time>,
    rcl_publish_time: Known<Time>,
    rclcpp_publish_time: Known<Time>,
}

/// The abstract state of a [`PublicationMessage`].
pub struct PublicationMessageView {
    pub ptr: u64,
    pub publisher: Known<PublisherRef>,
    pub sender_timestamp: Known<Time>,
    pub rmw_publish_time: Known<Time>,
    pub rcl_publish_time: Known<Time>,
    pub rclcpp_publish_time: Known<Time>,
}

impl View for PublicationMessage {
    type V = PublicationMessageView;

    closed spec fn view(&self) -> PublicationMessageView {
        PublicationMessageView {
            ptr: self.ptr,
            publisher: self.publisher,
            sender_timestamp: self.sender_timestamp,
            rmw_publish_time: self.rmw_publish_time,
            rcl_publish_time: self.rcl_publish_time,
            rclcpp_publish_time: self.rclcpp_publish_time,
        }
    }
}

/// The state of a message whose address is all that is known.
pub open spec fn fresh_publication_view(ptr: u64) -> PublicationMessageView {
    PublicationMessageView {
        ptr,
        publisher: Known::Unknown,
        sender_timestamp: Known::Unknown,
        rmw_publish_time: Known::Unknown,
        rcl_publish_time: Known::Unknown,
        rclcpp_publish_time: Known::Unknown,
    }
}

/// The publication time: the time at the highest layer that has seen the message.
pub open spec fn publication_time(m: PublicationMessageView) -> Option<Time> {
    if m.rclcpp_publish_time is Known {
        known_to_option(m.rclcpp_publish_time)
    } else if m.rcl_publish_time is Known {
        known_to_option(m.rcl_publish_time)
    } else {
        known_to_option(m.rmw_publish_time)
    }
}

impl PublicationMessage {
    pub fn new(message: u64) -> (r: Self)
        ensures
            r@ == fresh_publication_view(message),
    {
        Self {
            ptr: message,
            publisher: Known::Unknown,
            sender_timestamp: Known::Unknown,
            rmw_publish_time: Known::Unknown,
            rcl_publish_time: Known::Unknown,
            rclcpp_publish_time: Known::Unknown,
        }
    }

    pub fn get_ptr(&self) -> (r: u64)
        ensures
            r == self@.ptr,
    {
        self.ptr
    }

    pub fn get_publisher(&self) -> (r: Option<PublisherRef>)
        ensures
            r == known_to_option(self@.publisher),
    {
        self.publisher.into_option()
    }

    /// Links the publisher; it must not be known yet.
    pub fn set_publisher(&mut self, publisher: PublisherRef)
        requires
            old(self)@.publisher is Unknown,
        ensures
            final(self)@ == (PublicationMessageView { publisher: Known::Known(publisher), ..old(self)@ }),
    {
        self.publisher = Known::new(publisher);
    }

    pub fn replace_publisher(&mut self, publisher: PublisherRef)
        ensures
            final(self)@ == (PublicationMessageView { publisher: Known::Known(publisher), ..old(self)@ }),
    {
        self.publisher = Known::new(publisher);
    }

    pub fn rclcpp_publish(&mut self, time: Time)
        requires
            old(self)@.rclcpp_publish_time is Unknown,
        ensures
            final(self)@ == (PublicationMessageView { rclcpp_publish_time: Known::Known(time), ..old(self)@ }),
    {
        self.rclcpp_publish_time = Known::new(time);
    }

    pub fn rcl_publish(&mut self, time: Time)
        requires
            old(self)@.rcl_publish_time is Unknown,
        ensures
            final(self)@ == (PublicationMessageView { rcl_publish_time: Known::Known(time), ..old(self)@ }),
    {
        self.rcl_publish_time = Known::new(time);
    }

    /// Records the RMW publication and the timestamp that receivers see as the source timestamp.
    pub fn rmw_publish(&mut self, time: Time, timestamp: i64)
        requires
            old(self)@.rmw_publish_time is Unknown,
            old(self)@.sender_timestamp is Unknown,
        ensures
            final(self)@ == (PublicationMessageView {
                rmw_publish_time: Known::Known(time),
                sender_timestamp: Known::Known(Time::from_nanos_spec(timestamp)),
                ..old(self)@
            }),
    {
        self.rmw_publish_time = Known::new(time);
        self.sender_timestamp = Known::new(Time::from_nanos(timestamp));
    }

    /// Records an RMW publication whose event carries no timestamp.
    pub fn rmw_publish_old(&mut self, time: Time)
        requires
            old(self)@.rmw_publish_time is Unknown,
        ensures
            final(self)@ == (PublicationMessageView { rmw_publish_time: Known::Known(time), ..old(self)@ }),
    {
        self.rmw_publish_time = Known::new(time);
    }

    pub fn get_sender_timestamp(&self) -> (r: Option<Time>)
        ensures
            r == known_to_option(self@.sender_timestamp),
    {
        self.sender_timestamp.into_option()
    }

    pub fn get_rmw_publication_time(&self) -> (r: Option<Time>)
        ensures
            r == known_to_option(self@.rmw_publish_time),
    {
        self.rmw_publish_time.into_option()
    }

    pub fn get_rcl_publication_time(&self) -> (r: Option<Time>)
        ensures
            r == known_to_option(self@.rcl_publish_time),
    {
        self.rcl_publish_time.into_option()
    }

    pub fn get_rclcpp_publication_time(&self) -> (r: Option<Time>)
        ensures
            r == known_to_option(self@.rclcpp_publish_time),
    {
        self.rclcpp_publish_time.into_option()
    }

    /// The time of the highest layer that has published the message.
    pub fn get_publication_time(&self) -> (r: Option<Time>)
        ensures
            r == publication_time(self@),
    {
        match self.get_rclcpp_publication_time() {
            Some(t) => Some(t),
            None => match self.get_rcl_publication_time() {
                Some(t) => Some(t),
                None => self.get_rmw_publication_time(),
            },
        }
    }
}

/// A message as it passes through the receiving layers (rmw, rcl, rclcpp).
#[derive(Debug)]
pub struct SubscriptionMessage {
    ptr: u64,
    message: PartiallyKnown<PublicationMessageRef, Time>,
    subscriber: Known<SubscriberRef>,
    rmw_receive_time: Known<Time>,
    rcl_receive_time: Known<Time>,
    rclcpp_receive_time: Known<Time>,
}

/// The abstract state of a [`SubscriptionMessage`].
pub struct SubscriptionMessageView {
    pub ptr: u64,
    /// The matched publication, or only the sender timestamp when no publication matched.
    pub message: PartiallyKnown<PublicationMessageRef, Time>,
    pub subscriber: Known<SubscriberRef>,
    pub rmw_receive_time: Known<Time>,
    pub rcl_receive_time: Known<Time>,
    pub rclcpp_receive_time: Known<Time>,
}

impl View for SubscriptionMessage {
    type V = SubscriptionMessageView;

    closed spec fn view(&self) -> SubscriptionMessageView {
        SubscriptionMessageView {
            ptr: self.ptr,
            message: self.message,
            subscriber: self.subscriber,
            rmw_receive_time: self.rmw_receive_time,
            rcl_receive_time: self.rcl_receive_time,
            rclcpp_receive_time: self.rclcpp_receive_time,
        }
    }
}

/// The state of a received message whose address is all that is known.
pub open spec fn fresh_subscription_view(ptr: u64) -> SubscriptionMessageView {
    SubscriptionMessageView {
        ptr,
        message: PartiallyKnown::Unknown,
        subscriber: Known::Unknown,
        rmw_receive_time: Known::Unknown,
        rcl_receive_time: Known::Unknown,
        rclcpp_receive_time: Known::Unknown,
    }
}

/// The receive time: the time at the highest layer that has seen the message.
pub open spec fn receive_time(m: SubscriptionMessageView) -> Option<Time> {
    if m.rclcpp_receive_time is Known {
        known_to_option(m.rclcpp_receive_time)
    } else if m.rcl_receive_time is Known {
        known_to_option(m.rcl_receive_time)
    } else {
        known_to_option(m.rmw_receive_time)
    }
}

impl SubscriptionMessage {
    pub fn new(ptr: u64) -> (r: Self)
        ensures
            r@ == fresh_subscription_view(ptr),
    {
        Self {
            ptr,
            message: PartiallyKnown::Unknown,
            subscriber: Known::Unknown,
            rmw_receive_time: Known::Unknown,
            rcl_receive_time: Known::Unknown,
            rclcpp_receive_time: Known::Unknown,
        }
    }

    pub fn get_ptr(&self) -> (r: u64)
        ensures
            r == self@.ptr,
    {
        self.ptr
    }

    /// Records an RMW take that matched a published message.
    pub fn rmw_take_matched(&mut self, subscriber: SubscriberRef, published_message: PublicationMessageRef, time: Time)
        requires
            old(self)@.subscriber is Unknown,
        ensures
            final(self)@ == (SubscriptionMessageView {
                subscriber: Known::Known(subscriber),
                message: PartiallyKnown::Fully(published_message),
                rmw_receive_time: Known::Known(time),
                ..old(self)@
            }),
    {
        self.subscriber = Known::new(subscriber);
        self.message = PartiallyKnown::Fully(published_message);
        self.rmw_receive_time = Known::new(time);
    }

    /// Records an RMW take that matched no published message; only the sender
    /// timestamp is known.
    pub fn rmw_take_unmatched(&mut self, subscriber: SubscriberRef, publication_time: i64, time: Time)
        requires
            old(self)@.subscriber is Unknown,
        ensures
            final(self)@ == (SubscriptionMessageView {
                subscriber: Known::Known(subscriber),
                message: PartiallyKnown::Partially(Time::from_nanos_spec(publication_time)),
                rmw_receive_time: Known::Known(time),
                ..old(self)@
            }),
    {
        self.subscriber = Known::new(subscriber);
        self.message = PartiallyKnown::Partially(Time::from_nanos(publication_time));
        self.rmw_receive_time = Known::new(time);
    }

    /// Records the RCL take; fails when it was already recorded.
    pub fn rcl_take(&mut self, time: Time) -> (r: Result<(), AlreadySetError<&Self, Time>>)
        ensures
            r is Ok <==> old(self)@.rcl_receive_time is Unknown,
            r is Ok ==> final(self)@ == (SubscriptionMessageView { rcl_receive_time: Known::Known(time), ..old(self)@ }),
            r matches Err(e) ==> final(self)@ == old(self)@ && e.spec_new_value() == time
                && *e.spec_object() == *old(self) && e.spec_msg()@ == "SubscriptionMessage rcl_receive_time already set."@,
    {
        if !self.rcl_receive_time.is_unknown() {
            return Err(AlreadySetError::new(&*self, time, "SubscriptionMessage rcl_receive_time already set."));
        }
        self.rcl_receive_time = Known::new(time);
        Ok(())
    }

    /// Records the rclcpp take; fails when it was already recorded.
    pub fn rclcpp_take(&mut self, time: Time) -> (r: Result<(), AlreadySetError<&Self, Time>>)
        ensures
            r is Ok <==> old(self)@.rclcpp_receive_time is Unknown,
            r is Ok ==> final(self)@ == (SubscriptionMessageView { rclcpp_receive_time: Known::Known(time), ..old(self)@ }),
            r matches Err(e) ==> final(self)@ == old(self)@ && e.spec_new_value() == time
                && *e.spec_object() == *old(self) && e.spec_msg()@ == "SubscriptionMessage rclcpp_receive_time already set."@,
    {
        if !self.rclcpp_receive_time.is_unknown() {
            return Err(AlreadySetError::new(&*self, time, "SubscriptionMessage rclcpp_receive_time already set."));
        }
        self.rclcpp_receive_time = Known::new(time);
        Ok(())
    }

    pub fn get_publication_message(&self) -> (r: Option<PublicationMessageRef>)
        ensures
            r == (match self@.message {
                PartiallyKnown::Fully(m) => Some(m),
                _ => None,
            }),
    {
        match &self.message {
            PartiallyKnown::Fully(message) => Some(*message),
            _ => None,
        }
    }

    pub fn get_sender_timestamp(&self) -> (r: Option<Time>)
        ensures
            r == (match self@.message {
                PartiallyKnown::Partially(t) => Some(t),
                _ => None,
            }),
    {
        match &self.message {
            PartiallyKnown::Partially(time) => Some(*time),
            _ => None,
        }
    }

    pub fn get_rmw_receive_time(&self) -> (r: Option<Time>)
        ensures
            r == known_to_option(self@.rmw_receive_time),
    {
        self.rmw_receive_time.into_option()
    }

    pub fn get_rcl_receive_time(&self) -> (r: Option<Time>)
        ensures
            r == known_to_option(self@.rcl_receive_time),
    {
        self.rcl_receive_time.into_option()
    }

    pub fn get_rclcpp_receive_time(&self) -> (r: Option<Time>)
        ensures
            r == known_to_option(self@.rclcpp_receive_time),
    {
        self.rclcpp_receive_time.into_option()
    }

    /// The time of the highest layer that has received the message.
    pub fn get_receive_time(&self) -> (r: Option<Time>)
        ensures
            r == receive_time(self@),
    {
        match self.get_rclcpp_receive_time() {
            Some(t) => Some(t),
            None => match self.get_rcl_receive_time() {
                Some(t) => Some(t),
                None => self.get_rmw_receive_time(),
            },
        }
    }

    pub fn get_subscriber(&self) -> (r: Option<SubscriberRef>)
        ensures
            r == known_to_option(self@.subscriber),
    {
        self.subscriber.into_option()
    }
}

} // verus!
