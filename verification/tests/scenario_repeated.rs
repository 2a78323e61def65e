use std::cmp::Ordering;

use ros2_trace_analyzer::analysis::callback_duration::CallbackDuration;
use ros2_trace_analyzer::analysis::dependency_graph::{DependencyGraph, Edge, LATENCY_INVALID};
use ros2_trace_analyzer::analysis::end_to_end::EndToEndAnalysis;
use ros2_trace_analyzer::analysis::message_latency::MessageLatency;
use ros2_trace_analyzer::analysis::publication_in_callback::PublicationInCallback;
use ros2_trace_analyzer::analysis::EventAnalysis;
use ros2_trace_analyzer::events_common::{Context, Time};
use ros2_trace_analyzer::known::Known;
use ros2_trace_analyzer::model::{CallbackInstanceRef, CallbackRef, PublisherRef, TimerRef};
use ros2_trace_analyzer::processed_events::{self, ros2 as processed};
use ros2_trace_analyzer::processor::{MaybeProcessed, Processor};
use ros2_trace_analyzer::raw_events;
use ros2_trace_analyzer::raw_events::ros2 as raw;

fn ros(time: i64, vtid: u32, event: raw::Event) -> raw_events::FullEvent {
    raw_events::FullEvent {
        context: Context::new(0, 100, vtid, "app".to_string(), "host".to_string()),
        time: Time::from_nanos(time),
        event: raw_events::Event::Ros2(event),
    }
}

fn subscription(events: &mut Vec<raw_events::FullEvent>, rmw: u64, topic: &str, callback: u64) {
    events.push(ros(40, 1, raw::Event::RmwSubscriptionInit(raw::RmwSubscriptionInit { rmw_subscription_handle: rmw, gid: [rmw as u8; 24] })));
    events.push(ros(50, 1, raw::Event::RclSubscriptionInit(raw::RclSubscriptionInit {
        subscription_handle: rmw + 1,
        node_handle: 1,
        rmw_subscription_handle: rmw,
        topic_name: topic.to_string(),
        queue_depth: 5,
    })));
    events.push(ros(60, 1, raw::Event::RclcppSubscriptionInit(raw::RclcppSubscriptionInit { subscription_handle: rmw + 1, subscription: rmw + 2 })));
    events.push(ros(70, 1, raw::Event::RclcppSubscriptionCallbackAdded(raw::RclcppSubscriptionCallbackAdded { subscription: rmw + 2, callback })));
}

fn timer_firing(events: &mut Vec<raw_events::FullEvent>, start: i64, message: u64) {
    events.push(ros(start, 7, raw::Event::CallbackStart(raw::CallbackStart { callback: 41, is_intra_process: false })));
    events.push(ros(start + 10, 7, raw::Event::RclcppPublish(raw::RclcppPublish { message })));
    events.push(ros(start + 20, 7, raw::Event::RclPublish(raw::RclPublish { publisher_handle: 11, message })));
    events.push(ros(start + 30, 7, raw::Event::RmwPublish(raw::RmwPublish { rmw_publisher_handle: Some(10), message, timestamp: Some(start + 30) })));
    events.push(ros(start + 100, 7, raw::Event::CallbackEnd(raw::CallbackEnd { callback: 41 })));
}

/// A timer fires twice and publishes on `/b`; one subscriber of `/b` and one of `/a`
/// each take a message.
fn scenario() -> Vec<raw_events::FullEvent> {
    let mut events = vec![
        ros(10, 1, raw::Event::RclNodeInit(raw::RclNodeInit { node_handle: 1, rmw_handle: 2, node_name: "n".to_string(), namespace: "/".to_string() })),
        ros(20, 1, raw::Event::RmwPublisherInit(raw::RmwPublisherInit { rmw_publisher_handle: 10, gid: [1; 24] })),
        ros(30, 1, raw::Event::RclPublisherInit(raw::RclPublisherInit {
            publisher_handle: 11,
            node_handle: 1,
            rmw_publisher_handle: 10,
            topic_name: "/b".to_string(),
            queue_depth: 7,
        })),
    ];
    subscription(&mut events, 20, "/b", 30);
    subscription(&mut events, 50, "/a", 31);
    events.push(ros(90, 1, raw::Event::RclTimerInit(raw::RclTimerInit { timer_handle: 40, period: 1000 })));
    events.push(ros(100, 1, raw::Event::RclcppTimerCallbackAdded(raw::RclcppTimerCallbackAdded { timer_handle: 40, callback: 41 })));
    events.push(ros(110, 1, raw::Event::RclcppTimerLinkNode(raw::RclcppTimerLinkNode { timer_handle: 40, node_handle: 1 })));
    timer_firing(&mut events, 1000, 500);
    events.push(ros(1200, 8, raw::Event::RmwTake(raw::RmwTake { rmw_subscription_handle: 20, message: 600, source_timestamp: 1030, taken: true })));
    events.push(ros(1220, 8, raw::Event::RclcppTake(raw::RclcppTake { message: 600 })));
    events.push(ros(1250, 9, raw::Event::RmwTake(raw::RmwTake { rmw_subscription_handle: 50, message: 700, source_timestamp: 5, taken: true })));
    events.push(ros(1260, 9, raw::Event::RclcppTake(raw::RclcppTake { message: 700 })));
    timer_firing(&mut events, 2000, 501);
    events
}

fn run() -> (Processor, Vec<processed_events::FullEvent>) {
    let mut processor = Processor::new();
    let mut out = Vec::new();
    for event in scenario() {
        assert!(processor.can_process_raw_event(&event), "cannot process {event:?}");
        match processor.process_raw_event(event) {
            Ok(MaybeProcessed::Processed(p)) => out.push(p),
            other => panic!("unexpected outcome {other:?}"),
        }
    }
    (processor, out)
}

fn analyze(analysis: &mut dyn EventAnalysis, processor: &Processor, events: &[processed_events::FullEvent]) {
    analysis.initialize();
    for event in events {
        assert!(analysis.accepts(event, processor.objects()), "analysis refuses {event:?}");
        analysis.process_event(event, processor.objects());
    }
    assert!(analysis.can_finalize(processor.objects()));
    analysis.finalize(processor.objects());
}

#[test]
fn repeated_timer_gives_delays_and_one_latency_per_activation() {
    let (processor, events) = run();
    let mut graph = DependencyGraph::new();
    analyze(&mut graph, &processor, &events);
    let edge = graph.edge_data(&Edge::TimerCallbackInvocation(TimerRef(0), CallbackRef(2))).unwrap();
    assert_eq!(edge.activation_delay(), &[1000]);
    assert_eq!(edge.latencies(), &[LATENCY_INVALID, LATENCY_INVALID]);
    assert_eq!(edge.last_activation(), Some(Time::from_nanos(2000)));
    assert_eq!(graph.timer_node(TimerRef(0)).unwrap().activation_delay(), &[1000]);
    assert_eq!(graph.publisher_node(PublisherRef(0)).unwrap().publication_delay(), &[1000]);
    let publication = graph.edge_data(&Edge::PublicationInCallback(PublisherRef(0), CallbackRef(2))).unwrap();
    assert_eq!(publication.latencies(), &[20, 20]);
    assert_eq!(publication.activation_delay(), &[1000]);
    let callback = graph.callback_node(CallbackRef(2)).unwrap();
    assert_eq!(callback.activation_delay(), &[1000]);
    assert_eq!(callback.durations(), &[100, 100]);
    let layout = graph.display_as_dot(processor.objects());
    for (_, _, e) in layout.edges() {
        let data = graph.edge_data(e).unwrap();
        assert_eq!(data.latencies().len(), data.activation_delay().len() + 1);
    }
}

#[test]
fn latency_stats_order_by_topic_both_ways() {
    let (processor, events) = run();
    let mut analysis = MessageLatency::new();
    analyze(&mut analysis, &processor, &events);
    let stats = analysis.calculate_stats(processor.objects());
    assert_eq!(stats.len(), 2);
    let on_b = stats.iter().find(|s| s.topic() == Known::Known("/b")).unwrap();
    let on_a = stats.iter().find(|s| s.topic() == Known::Known("/a")).unwrap();
    assert_eq!(on_b.latencies(), &[210]);
    assert_eq!(on_a.latencies(), &[1255]);
    assert_eq!(on_a.publisher(), None);
    assert_eq!(on_b.partial_cmp(on_a), Some(Ordering::Greater));
    assert_eq!(on_a.partial_cmp(on_b), Some(Ordering::Less));
    assert_eq!(on_a.partial_cmp(on_a), Some(Ordering::Equal));
}

#[test]
fn inter_arrival_times_of_a_repeated_callback() {
    let (processor, events) = run();
    let mut analysis = CallbackDuration::new();
    analyze(&mut analysis, &processor, &events);
    assert_eq!(analysis.get_inter_arrival_time(CallbackRef(2)), Some(vec![1000]));
    assert_eq!(analysis.get_durations_for_callback(CallbackRef(2)), Some(vec![100, 100]));
    let summary = analysis.calculate_duration_summary(CallbackRef(2)).unwrap();
    assert_eq!(summary.call_count, 2);
    assert_eq!(summary.max_duration, 100);
    assert_eq!(summary.avg_duration, 100);
    assert_eq!(analysis.get_inter_arrival_time(CallbackRef(0)), None);
}

#[test]
fn analyses_refuse_what_would_abort_the_run() {
    let (processor, events) = run();
    let start = events.iter().position(|e| matches!(e.event, processed_events::Event::Ros2(processed::Event::CallbackStart(_)))).unwrap();
    let end = events.iter().position(|e| matches!(e.event, processed_events::Event::Ros2(processed::Event::CallbackEnd(_)))).unwrap();
    let objects = processor.objects();

    let mut graph = DependencyGraph::new();
    assert!(graph.accepts(&events[start], objects));
    graph.process_event(&events[start], objects);
    assert!(!graph.accepts(&events[start], objects));

    let mut durations = CallbackDuration::new();
    assert!(!durations.accepts(&events[end], objects));

    let mut publications = PublicationInCallback::new();
    assert!(!publications.accepts(&events[end], objects));
    publications.process_event(&events[start], objects);
    assert!(!publications.accepts(&events[start], objects));

    let mut chains = EndToEndAnalysis::new();
    chains.process_event(&events[start], objects);
    assert!(!chains.accepts(&events[start], objects));
    assert!(chains.accepts(&events[end], objects));
    let _ = CallbackInstanceRef(0);
}

use ros2_trace_analyzer::analysis::utilization::Utilization;

#[test]
fn callbacks_per_thread() {
    let (processor, events) = run();
    let mut analysis = CallbackDuration::new();
    analyze(&mut analysis, &processor, &events);
    let utilization = Utilization::new(&analysis);
    let map = utilization.get_thread_callback_map(processor.objects());
    assert_eq!(map.len(), 1);
    assert_eq!(map[0].0, "host");
    assert_eq!(map[0].1, 7);
    assert_eq!(map[0].2, vec![CallbackRef(2)]);
}
