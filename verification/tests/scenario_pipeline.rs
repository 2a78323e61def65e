use ros2_trace_analyzer::analysis::set::AnyAnalysis;
use ros2_trace_analyzer::event_iterator::{EventStep, ProcessedEventsIter};
use ros2_trace_analyzer::analysis::callback_dependency::CallbackDependency;
use ros2_trace_analyzer::analysis::callback_duration::CallbackDuration;
use ros2_trace_analyzer::analysis::dependency_graph::{DependencyGraph, Edge, Node as GraphNode};
use ros2_trace_analyzer::analysis::end_to_end::{EndToEndAnalysis, Thing};
use ros2_trace_analyzer::analysis::message_latency::MessageLatency;
use ros2_trace_analyzer::analysis::message_take_to_callback_latency::MessageTakeToCallbackLatency;
use ros2_trace_analyzer::analysis::publication_in_callback::PublicationInCallback;
use ros2_trace_analyzer::analysis::spin_duration::SpinDuration;
use ros2_trace_analyzer::analysis::EventAnalysis;
use ros2_trace_analyzer::events_common::{Context, Time};
use ros2_trace_analyzer::known::{Known, WeakKnown};
use ros2_trace_analyzer::model::display::{
    get_node_name_from_weak, get_service_name_from_weak, get_subscriber_topic_from_weak, get_timer_period_from_weak,
};
use ros2_trace_analyzer::model::{CallbackCaller, CallbackRef, NodeRef, PublisherRef, ServiceRef, SubscriberRef, TimerRef};
use ros2_trace_analyzer::processed_events;
use ros2_trace_analyzer::processor::{MaybeProcessed, Processor};
use ros2_trace_analyzer::raw_events;
use ros2_trace_analyzer::raw_events::r2r as raw_r2r;
use ros2_trace_analyzer::raw_events::ros2 as raw;

fn context(vtid: u32) -> Context {
    Context::new(0, 100, vtid, "app".to_string(), "host".to_string())
}

fn ros(time: i64, vtid: u32, event: raw::Event) -> raw_events::FullEvent {
    raw_events::FullEvent { context: context(vtid), time: Time::from_nanos(time), event: raw_events::Event::Ros2(event) }
}

fn r2r(time: i64, vtid: u32, event: raw_r2r::Event) -> raw_events::FullEvent {
    raw_events::FullEvent { context: context(vtid), time: Time::from_nanos(time), event: raw_events::Event::R2r(event) }
}

/// A node with a publisher and a subscriber on `/chatter`, a timer whose callback
/// publishes, and the subscription callback that handles the message.
fn scenario() -> Vec<raw_events::FullEvent> {
    vec![
        ros(10, 1, raw::Event::RclNodeInit(raw::RclNodeInit {
            node_handle: 1,
            rmw_handle: 2,
            node_name: "talker".to_string(),
            namespace: "/".to_string(),
        })),
        ros(20, 1, raw::Event::RmwPublisherInit(raw::RmwPublisherInit { rmw_publisher_handle: 10, gid: [1; 24] })),
        ros(30, 1, raw::Event::RclPublisherInit(raw::RclPublisherInit {
            publisher_handle: 11,
            node_handle: 1,
            rmw_publisher_handle: 10,
            topic_name: "/chatter".to_string(),
            queue_depth: 7,
        })),
        ros(40, 1, raw::Event::RmwSubscriptionInit(raw::RmwSubscriptionInit { rmw_subscription_handle: 20, gid: [2; 24] })),
        ros(50, 1, raw::Event::RclSubscriptionInit(raw::RclSubscriptionInit {
            subscription_handle: 21,
            node_handle: 1,
            rmw_subscription_handle: 20,
            topic_name: "/chatter".to_string(),
            queue_depth: 5,
        })),
        ros(60, 1, raw::Event::RclcppSubscriptionInit(raw::RclcppSubscriptionInit { subscription_handle: 21, subscription: 22 })),
        ros(70, 1, raw::Event::RclcppSubscriptionCallbackAdded(raw::RclcppSubscriptionCallbackAdded { subscription: 22, callback: 30 })),
        ros(80, 1, raw::Event::RclcppCallbackRegister(raw::RclcppCallbackRegister { callback: 30, symbol: "on_message".to_string() })),
        ros(90, 1, raw::Event::RclTimerInit(raw::RclTimerInit { timer_handle: 40, period: 100_000_000 })),
        ros(100, 1, raw::Event::RclcppTimerCallbackAdded(raw::RclcppTimerCallbackAdded { timer_handle: 40, callback: 41 })),
        ros(110, 1, raw::Event::RclcppTimerLinkNode(raw::RclcppTimerLinkNode { timer_handle: 40, node_handle: 1 })),
        ros(120, 1, raw::Event::RclcppCallbackRegister(raw::RclcppCallbackRegister { callback: 41, symbol: "on_timer".to_string() })),
        r2r(900, 7, raw_r2r::Event::SpinStart(raw_r2r::SpinStart { node_handle: 1, timeout_s: 1, timeout_ns: 0 })),
        r2r(950, 7, raw_r2r::Event::SpinWake(raw_r2r::SpinWake { node_handle: 1 })),
        ros(1000, 7, raw::Event::CallbackStart(raw::CallbackStart { callback: 41, is_intra_process: false })),
        ros(1010, 7, raw::Event::RclcppPublish(raw::RclcppPublish { message: 500 })),
        ros(1020, 7, raw::Event::RclPublish(raw::RclPublish { publisher_handle: 11, message: 500 })),
        ros(1030, 7, raw::Event::RmwPublish(raw::RmwPublish { rmw_publisher_handle: Some(10), message: 500, timestamp: Some(1030) })),
        ros(1100, 7, raw::Event::CallbackEnd(raw::CallbackEnd { callback: 41 })),
        ros(1200, 8, raw::Event::RmwTake(raw::RmwTake { rmw_subscription_handle: 20, message: 600, source_timestamp: 1030, taken: true })),
        ros(1210, 8, raw::Event::RclTake(raw::RclTake { message: 600 })),
        ros(1220, 8, raw::Event::RclcppTake(raw::RclcppTake { message: 600 })),
        ros(1300, 8, raw::Event::CallbackStart(raw::CallbackStart { callback: 30, is_intra_process: false })),
        ros(1400, 8, raw::Event::CallbackEnd(raw::CallbackEnd { callback: 30 })),
        r2r(1500, 7, raw_r2r::Event::SpinEnd(raw_r2r::SpinEnd { node_handle: 1 })),
    ]
}

/// Processes every event, checking first that the processor can take it.
fn process_all(processor: &mut Processor, events: Vec<raw_events::FullEvent>) -> Vec<processed_events::FullEvent> {
    let mut out = Vec::new();
    for event in events {
        assert!(processor.can_process_raw_event(&event), "cannot process {event:?}");
        match processor.process_raw_event(event) {
            Ok(MaybeProcessed::Processed(p)) => out.push(p),
            other => panic!("unexpected outcome {other:?}"),
        }
    }
    out
}

/// Runs an analysis over the events, checking each precondition first.
fn analyze(analysis: &mut dyn EventAnalysis, processor: &Processor, events: &[processed_events::FullEvent]) {
    analysis.initialize();
    for event in events {
        assert!(analysis.accepts(event, processor.objects()), "analysis refuses {event:?}");
        analysis.process_event(event, processor.objects());
    }
    assert!(analysis.can_finalize(processor.objects()));
    analysis.finalize(processor.objects());
}

fn run_scenario() -> (Processor, Vec<processed_events::FullEvent>) {
    let mut processor = Processor::new();
    let events = process_all(&mut processor, scenario());
    (processor, events)
}

#[test]
fn scenario_builds_the_objects() {
    let (processor, _) = run_scenario();
    let objects = processor.objects();
    assert_eq!(objects.node_count(), 1);
    assert_eq!(objects.node(NodeRef(0)).get_name(), Known::Known("talker"));
    assert_eq!(objects.publisher(PublisherRef(0)).get_topic(), Known::Known("/chatter"));
    assert_eq!(objects.subscriber(SubscriberRef(0)).get_topic(), Known::Known("/chatter"));
    assert_eq!(objects.timer(TimerRef(0)).get_period(), Known::Known(100_000_000));
    assert_eq!(objects.callback_count(), 2);
}

#[test]
fn scenario_names_through_references() {
    let (processor, _) = run_scenario();
    let objects = processor.objects();
    assert_eq!(get_node_name_from_weak(objects, NodeRef(0)), WeakKnown::Known("/talker".to_string()));
    assert_eq!(get_node_name_from_weak(objects, NodeRef(1)), WeakKnown::Droped);
    assert_eq!(get_subscriber_topic_from_weak(objects, SubscriberRef(0)), WeakKnown::Known("/chatter".to_string()));
    assert_eq!(get_subscriber_topic_from_weak(objects, SubscriberRef(3)), WeakKnown::Droped);
    assert_eq!(get_timer_period_from_weak(objects, TimerRef(0)), WeakKnown::Known(100_000_000));
    assert_eq!(get_service_name_from_weak(objects, ServiceRef(0)), WeakKnown::Droped);
}

#[test]
fn scenario_callback_durations() {
    let (processor, events) = run_scenario();
    let mut analysis = CallbackDuration::new();
    analyze(&mut analysis, &processor, &events);
    assert!(analysis.can_get_records(processor.objects()));
    let records = analysis.get_records(processor.objects());
    assert_eq!(records.len(), 2);
    for record in &records {
        assert_eq!(record.durations, vec![100]);
        assert!(record.inter_arrival_times.is_empty());
    }
}

#[test]
fn scenario_dependency_graph_edges() {
    let (processor, events) = run_scenario();
    let mut graph = DependencyGraph::new();
    analyze(&mut graph, &processor, &events);
    let publisher = PublisherRef(0);
    let subscriber = SubscriberRef(0);
    let timer = TimerRef(0);
    let on_message = CallbackRef(0);
    let on_timer = CallbackRef(1);
    let timer_edge = graph.edge_data(&Edge::TimerCallbackInvocation(timer, on_timer)).unwrap();
    assert_eq!(timer_edge.latencies(), &[50]);
    let publication_edge = graph.edge_data(&Edge::PublicationInCallback(publisher, on_timer)).unwrap();
    assert_eq!(publication_edge.latencies(), &[20]);
    let communication = graph.edge_data(&Edge::PublisherSubscriberCommunication(publisher, subscriber)).unwrap();
    assert_eq!(communication.latencies(), &[190]);
    let invocation = graph.edge_data(&Edge::SubscriberCallbackInvocation(subscriber, on_message)).unwrap();
    assert_eq!(invocation.latencies(), &[100]);
    assert!(invocation.activation_delay().is_empty());
    assert_eq!(graph.callback_node(on_timer).unwrap().durations(), &[100]);
    assert_eq!(graph.callback_node(on_message).unwrap().durations(), &[100]);
    assert_eq!(graph.ros_nodes(), &[NodeRef(0)]);
    assert!(graph.can_display(processor.objects()));
    let layout = graph.display_as_dot(processor.objects());
    assert_eq!(layout.nodes().len(), 5);
    assert_eq!(layout.edges().len(), 4);
    assert_eq!(layout.ros_nodes(), &[NodeRef(0)]);
    let vertex_attributes = vec![String::new(); 5];
    let edge_attributes = vec![" [color=red]".to_string(); 4];
    let text = layout.to_dot(processor.objects(), &vertex_attributes, &edge_attributes);
    assert!(text.starts_with("digraph G {\n  subgraph cluster_0 {\n    label=\"/talker\";\n"));
    assert!(text.contains("[label=\"Publisher\\n/chatter\", shape=ellipse];\n"));
    assert!(text.contains("[label=\"Subscriber\\n/chatter\", shape=ellipse];\n"));
    assert!(text.contains("[label=\"Timer\\n100000000 ns\", shape=ellipse];\n"));
    assert!(text.contains("[label=\"Callback\\n100000000\", shape=ellipse];\n"));
    assert!(text.contains("[label=\"Callback\\n/chatter\", shape=ellipse];\n"));
    assert_eq!(text.matches(" [color=red];\n").count(), 4);
    assert!(text.ends_with(" [color=red];\n}\n"));
    for (source, target, edge) in layout.edges() {
        assert!(matches!(layout.nodes()[*source], GraphNode::Callback(_) | GraphNode::Subscriber(_) | GraphNode::Timer(_) | GraphNode::Publisher(_)));
        let _ = (target, edge);
    }
}

#[test]
fn scenario_message_latency() {
    let (processor, events) = run_scenario();
    let mut analysis = MessageLatency::new();
    analyze(&mut analysis, &processor, &events);
    assert!(analysis.can_calculate_stats(processor.objects()));
    let stats = analysis.calculate_stats(processor.objects());
    assert_eq!(stats.len(), 1);
    assert_eq!(stats[0].latencies(), &[210]);
    assert_eq!(stats[0].publisher(), Some(PublisherRef(0)));
    assert_eq!(stats[0].topic(), Known::Known("/chatter"));
}

#[test]
fn scenario_take_to_callback_latency() {
    let (processor, events) = run_scenario();
    let mut analysis = MessageTakeToCallbackLatency::new();
    analyze(&mut analysis, &processor, &events);
    assert_eq!(analysis.len(), 1);
    let (callback, latencies) = analysis.entry(0);
    assert_eq!(callback, CallbackRef(0));
    assert_eq!(latencies, &[80]);
}

#[test]
fn scenario_publication_in_callback() {
    let (processor, events) = run_scenario();
    let mut analysis = PublicationInCallback::new();
    analyze(&mut analysis, &processor, &events);
    assert_eq!(analysis.get_dependency(), &[(PublisherRef(0), CallbackRef(1))]);
}

#[test]
fn scenario_callback_dependency_graph() {
    let (processor, events) = run_scenario();
    let mut analysis = CallbackDependency::new();
    analyze(&mut analysis, &processor, &events);
    let graph = analysis.get_graph().unwrap();
    let callbacks: Vec<CallbackRef> = graph.nodes().iter().map(|n| n.callback()).collect();
    assert_eq!(callbacks, vec![CallbackRef(1), CallbackRef(0)]);
    assert_eq!(graph.sources(), &[0]);
    assert_eq!(graph.edges(), &[(0, 1)]);
}

#[test]
fn scenario_spin_duration() {
    let (processor, events) = run_scenario();
    let mut analysis = SpinDuration::new();
    analyze(&mut analysis, &processor, &events);
    assert_eq!(analysis.len(), 1);
    let (node, durations) = analysis.entry(0);
    assert_eq!(node, NodeRef(0));
    assert_eq!(durations, &[550]);
}

#[test]
fn scenario_end_to_end_chain() {
    let (processor, events) = run_scenario();
    let mut analysis = EndToEndAnalysis::new();
    analyze(&mut analysis, &processor, &events);
    assert_eq!(analysis.reduction_count(), 1);
    let ((start, end), latencies) = analysis.reduction(0);
    assert!(matches!(start, Thing::Callback(CallbackRef(1))));
    assert!(matches!(end, Thing::Callback(CallbackRef(0))));
    assert_eq!(latencies, &[400]);
}

#[test]
fn scenario_callers_as_text() {
    let (processor, _) = run_scenario();
    let objects = processor.objects();
    let subscription = CallbackCaller::Subscription(SubscriberRef(0));
    assert_eq!(subscription.get_caller_as_string(objects), WeakKnown::Known("/chatter".to_string()));
    assert_eq!(subscription.is_removed(objects), Some(false));
    let timer = CallbackCaller::Timer(TimerRef(0));
    assert_eq!(timer.get_caller_as_string(objects), WeakKnown::Known("100000000".to_string()));
    let missing = CallbackCaller::Service(ServiceRef(0));
    assert_eq!(missing.get_caller_as_string(objects), WeakKnown::Droped);
    assert_eq!(missing.is_removed(objects), None);
}

#[test]
fn scenario_events_reach_every_analysis() {
    let mut iter = ProcessedEventsIter::new();
    iter.add_analysis(AnyAnalysis::CallbackDuration(CallbackDuration::new()));
    iter.add_analysis(AnyAnalysis::SpinDuration(SpinDuration::new()));
    let mut processed = 0;
    for event in scenario() {
        assert!(iter.can_take(&event));
        match iter.on_event(event) {
            EventStep::Processed(_) => processed += 1,
            EventStep::Refused(e) => panic!("refused {e:?}"),
            _ => {}
        }
    }
    assert!(iter.finish());
    assert_eq!(iter.counters().ros_processed_events, processed);
    assert_eq!(iter.analyses().len(), 2);
    match iter.analyses().get(0) {
        AnyAnalysis::CallbackDuration(a) => {
            let records = a.get_records(iter.processor().objects());
            assert_eq!(records.len(), 2);
        }
        _ => panic!("the first analysis is the callback duration"),
    }
    match iter.analyses().get(1) {
        AnyAnalysis::SpinDuration(a) => assert_eq!(a.len(), 1),
        _ => panic!("the second analysis is the spin duration"),
    }
}

#[test]
fn scenario_callback_graph_as_dot() {
    let (processor, events) = run_scenario();
    let mut analysis = CallbackDependency::new();
    analyze(&mut analysis, &processor, &events);
    let graph = analysis.get_graph().unwrap();
    let text = graph.as_dot(processor.objects());
    assert!(text.starts_with("digraph G {\n  rankdir=LR;\n"));
    assert!(text.contains("[label=\"Callback\\nnode=\\\"/talker\\\"\\nSubscriber(\\\"/chatter\\\")\", shape=ellipse];\n"));
    assert!(text.contains("[label=\"Callback\\nnode=\\\"/talker\\\"\\nTimer(100000000 ns\", shape=ellipse];\n"));
    assert_eq!(text.matches(" -> n").count(), graph.edges().len());
    assert!(text.ends_with("}\n"));
}
