use ros2_trace_analyzer::events_common::{Context, Time};
use ros2_trace_analyzer::known::Known;
use ros2_trace_analyzer::model::{
    CallbackInstanceRef, CallbackRef, CallbackTrigger, NodeRef, PublicationMessageRef, SubscriberRef,
    SubscriptionMessageRef, TimerRef,
};
use ros2_trace_analyzer::processor::error::{Causes, Object, ObjectType, ProcessorError};
use ros2_trace_analyzer::processor::{MaybeProcessed, Processor};
use ros2_trace_analyzer::raw_events;
use ros2_trace_analyzer::raw_events::ros2 as raw;

fn event(time: i64, vtid: u32, e: raw::Event) -> raw_events::FullEvent {
    raw_events::FullEvent {
        context: Context::new(0, 100, vtid, "app".to_string(), "host".to_string()),
        time: Time::from_nanos(time),
        event: raw_events::Event::Ros2(e),
    }
}

fn apply(p: &mut Processor, e: raw_events::FullEvent) -> Result<(), ProcessorError> {
    assert!(p.can_process_raw_event(&e));
    match p.process_raw_event(e) {
        Ok(MaybeProcessed::Processed(_)) => Ok(()),
        Ok(MaybeProcessed::Raw(r)) => panic!("unsupported {r:?}"),
        Err(err) => Err(err),
    }
}

fn node_init(handle: u64, name: &str) -> raw::Event {
    raw::Event::RclNodeInit(raw::RclNodeInit { node_handle: handle, rmw_handle: handle + 1000, node_name: name.to_string(), namespace: "/ns".to_string() })
}

fn subscription(p: &mut Processor, node: u64, rmw: u64, rcl: u64, rclcpp: u64, topic: &str) {
    apply(p, event(1, 1, raw::Event::RmwSubscriptionInit(raw::RmwSubscriptionInit { rmw_subscription_handle: rmw, gid: [rmw as u8; 24] }))).unwrap();
    apply(p, event(2, 1, raw::Event::RclSubscriptionInit(raw::RclSubscriptionInit {
        subscription_handle: rcl,
        node_handle: node,
        rmw_subscription_handle: rmw,
        topic_name: topic.to_string(),
        queue_depth: 1,
    }))).unwrap();
    apply(p, event(3, 1, raw::Event::RclcppSubscriptionInit(raw::RclcppSubscriptionInit { subscription_handle: rcl, subscription: rclcpp }))).unwrap();
}

#[test]
fn node_init_names_the_node() {
    let mut p = Processor::new();
    apply(&mut p, event(5, 1, node_init(1, "talker"))).unwrap();
    let node = p.objects().node(NodeRef(0));
    assert_eq!(node.get_name(), Known::Known("talker"));
    assert_eq!(node.get_namespace(), Known::Known("/ns"));
    assert_eq!(node.get_full_name(), Known::Known("/nstalker"));
}

#[test]
fn timer_init_records_the_period() {
    let mut p = Processor::new();
    apply(&mut p, event(5, 1, raw::Event::RclTimerInit(raw::RclTimerInit { timer_handle: 9, period: 250 }))).unwrap();
    assert_eq!(p.objects().timer(TimerRef(0)).get_period(), Known::Known(250));
}

#[test]
fn unknown_callback_register_is_not_found() {
    let mut p = Processor::new();
    let err = apply(&mut p, event(5, 1, raw::Event::RclcppCallbackRegister(raw::RclcppCallbackRegister { callback: 77, symbol: "f".to_string() }))).unwrap_err();
    match err {
        ProcessorError::Event(e) => match e.cause() {
            Causes::NotFound(nf) => {
                assert_eq!(nf.key(), 77);
                assert_eq!(nf.key_variable(), "id");
                assert_eq!(nf.object_type(), ObjectType::Callback);
            },
            other => panic!("unexpected cause {other:?}"),
        },
        other => panic!("unexpected error {other:?}"),
    }
}

#[test]
fn second_callback_name_is_already_set() {
    let mut p = Processor::new();
    apply(&mut p, event(1, 1, node_init(1, "n"))).unwrap();
    subscription(&mut p, 1, 20, 21, 22, "/t");
    apply(&mut p, event(4, 1, raw::Event::RclcppSubscriptionCallbackAdded(raw::RclcppSubscriptionCallbackAdded { subscription: 22, callback: 30 }))).unwrap();
    apply(&mut p, event(5, 1, raw::Event::RclcppCallbackRegister(raw::RclcppCallbackRegister { callback: 30, symbol: "f".to_string() }))).unwrap();
    let err = apply(&mut p, event(6, 1, raw::Event::RclcppCallbackRegister(raw::RclcppCallbackRegister { callback: 30, symbol: "g".to_string() }))).unwrap_err();
    match err {
        ProcessorError::AlreadySet { object, message } => {
            assert!(matches!(object, Object::Callback(CallbackRef(0))));
            assert_eq!(message, "Callback already registered with a name");
        },
        other => panic!("unexpected error {other:?}"),
    }
}

#[test]
fn second_rclcpp_subscription_init_is_already_initialized() {
    let mut p = Processor::new();
    apply(&mut p, event(1, 1, node_init(1, "n"))).unwrap();
    subscription(&mut p, 1, 20, 21, 22, "/t");
    let err = apply(&mut p, event(4, 1, raw::Event::RclcppSubscriptionInit(raw::RclcppSubscriptionInit { subscription_handle: 21, subscription: 23 }))).unwrap_err();
    match err {
        ProcessorError::Cause(Causes::AlreadyInitialized(_, object)) => {
            assert!(matches!(object, Object::Subscriber(SubscriberRef(0))));
        },
        other => panic!("unexpected error {other:?}"),
    }
}

#[test]
fn timer_linked_to_unknown_node_misses_its_dependency() {
    let mut p = Processor::new();
    apply(&mut p, event(1, 1, raw::Event::RclTimerInit(raw::RclTimerInit { timer_handle: 9, period: 250 }))).unwrap();
    let err = apply(&mut p, event(2, 1, raw::Event::RclcppTimerLinkNode(raw::RclcppTimerLinkNode { timer_handle: 9, node_handle: 5 }))).unwrap_err();
    match err {
        ProcessorError::Event(e) => match e.cause() {
            Causes::ObjectMissingDependency(d) => {
                assert!(matches!(d.object(), Object::Timer(TimerRef(0))));
                assert_eq!(d.cause().key(), 5);
                assert_eq!(d.cause().object_type(), ObjectType::Node);
            },
            other => panic!("unexpected cause {other:?}"),
        },
        other => panic!("unexpected error {other:?}"),
    }
}

#[test]
fn callback_id_of_live_callback_already_exists() {
    let mut p = Processor::new();
    apply(&mut p, event(1, 1, node_init(1, "n"))).unwrap();
    subscription(&mut p, 1, 20, 21, 22, "/a");
    subscription(&mut p, 1, 40, 41, 42, "/b");
    apply(&mut p, event(4, 1, raw::Event::RclcppSubscriptionCallbackAdded(raw::RclcppSubscriptionCallbackAdded { subscription: 22, callback: 30 }))).unwrap();
    let err = apply(&mut p, event(5, 1, raw::Event::RclcppSubscriptionCallbackAdded(raw::RclcppSubscriptionCallbackAdded { subscription: 42, callback: 30 }))).unwrap_err();
    match err {
        ProcessorError::Event(e) => match e.cause() {
            Causes::AlreadyExists(x) => {
                assert_eq!(x.key(), 30);
                assert!(matches!(x.new_object(), Object::Callback(CallbackRef(0))));
                assert!(matches!(x.old_object(), Object::Callback(CallbackRef(1))));
            },
            other => panic!("unexpected cause {other:?}"),
        },
        other => panic!("unexpected error {other:?}"),
    }
}

#[test]
fn taken_message_is_matched_and_triggers_its_callback() {
    let mut p = Processor::new();
    apply(&mut p, event(1, 1, node_init(1, "n"))).unwrap();
    apply(&mut p, event(2, 1, raw::Event::RmwPublisherInit(raw::RmwPublisherInit { rmw_publisher_handle: 10, gid: [9; 24] }))).unwrap();
    apply(&mut p, event(3, 1, raw::Event::RclPublisherInit(raw::RclPublisherInit {
        publisher_handle: 11,
        node_handle: 1,
        rmw_publisher_handle: 10,
        topic_name: "/t".to_string(),
        queue_depth: 1,
    }))).unwrap();
    subscription(&mut p, 1, 20, 21, 22, "/t");
    apply(&mut p, event(4, 1, raw::Event::RclcppSubscriptionCallbackAdded(raw::RclcppSubscriptionCallbackAdded { subscription: 22, callback: 30 }))).unwrap();
    apply(&mut p, event(10, 2, raw::Event::RmwPublish(raw::RmwPublish { rmw_publisher_handle: Some(10), message: 500, timestamp: Some(10) }))).unwrap();
    apply(&mut p, event(20, 3, raw::Event::RmwTake(raw::RmwTake { rmw_subscription_handle: 20, message: 600, source_timestamp: 10, taken: true }))).unwrap();
    let message = p.objects().subscription_message(SubscriptionMessageRef(0));
    assert_eq!(message.get_publication_message(), Some(PublicationMessageRef(0)));
    assert_eq!(message.get_rmw_receive_time(), Some(Time::from_nanos(20)));
    assert_eq!(p.objects().publication_message(PublicationMessageRef(0)).get_sender_timestamp(), Some(Time::from_nanos(10)));
    apply(&mut p, event(30, 3, raw::Event::CallbackStart(raw::CallbackStart { callback: 30, is_intra_process: false }))).unwrap();
    apply(&mut p, event(45, 3, raw::Event::CallbackEnd(raw::CallbackEnd { callback: 30 }))).unwrap();
    let instance = p.objects().callback_instance(CallbackInstanceRef(0));
    assert!(matches!(instance.get_trigger(), CallbackTrigger::SubscriptionMessage(SubscriptionMessageRef(0))));
    assert_eq!(instance.get_start_time(), Time::from_nanos(30));
    assert_eq!(instance.get_end_time(), Some(Time::from_nanos(45)));
    assert_eq!(p.objects().subscriber(SubscriberRef(0)).taken_message_count(), 0);
}

#[test]
fn take_without_publication_keeps_the_sender_timestamp() {
    let mut p = Processor::new();
    apply(&mut p, event(1, 1, node_init(1, "n"))).unwrap();
    subscription(&mut p, 1, 20, 21, 22, "/t");
    apply(&mut p, event(20, 3, raw::Event::RmwTake(raw::RmwTake { rmw_subscription_handle: 20, message: 600, source_timestamp: 7, taken: true }))).unwrap();
    let message = p.objects().subscription_message(SubscriptionMessageRef(0));
    assert_eq!(message.get_publication_message(), None);
    assert_eq!(message.get_sender_timestamp(), Some(Time::from_nanos(7)));
}

#[test]
fn take_for_unknown_subscriber_is_not_found() {
    let mut p = Processor::new();
    let err = apply(&mut p, event(20, 3, raw::Event::RmwTake(raw::RmwTake { rmw_subscription_handle: 99, message: 600, source_timestamp: 7, taken: true }))).unwrap_err();
    match err {
        ProcessorError::Event(e) => {
            assert_eq!(e.timestamp(), Time::from_nanos(20));
            assert!(matches!(e.cause(), Causes::NotFound(nf) if nf.key() == 99 && nf.object_type() == ObjectType::Subscriber));
        },
        other => panic!("unexpected error {other:?}"),
    }
}
