use ros2_trace_analyzer::model::time_order::compare_times;
use std::cmp::Ordering;

use ros2_trace_analyzer::analysis::dependency_graph::{Edge, Node as GraphNode};
use ros2_trace_analyzer::analysis::keyed::KeyedList;
use ros2_trace_analyzer::analysis::statistics::{calculate_min_max_avg, mean};
use ros2_trace_analyzer::analysis::text_order::{compare_text, same_text, text_order};
use ros2_trace_analyzer::analysis::threads::RunningCallbacks;
use ros2_trace_analyzer::analysis::utils::DisplayDurationStats;
use ros2_trace_analyzer::argsv2::chart_args::{ChartOutputFormat, ChartVariants, ChartedValue, HistogramData};
use ros2_trace_analyzer::argsv2::extract_args::{choose_path, AnalysisProperty, ExtractArgs, PathChoice};
use ros2_trace_analyzer::argsv2::viewer_args::ViewerArgs;
use ros2_trace_analyzer::argsv2::{filenames, output_name, runs_all};
use ros2_trace_analyzer::event_iterator::{BtMessageType, MessageAction, ProcessedEventsIter};
use ros2_trace_analyzer::events_common::Context;
use ros2_trace_analyzer::extract::{RosChannelCompleteName, RosInterfaceCompleteName};
use ros2_trace_analyzer::model::{CallbackInstanceRef, CallbackRef, PublisherRef, SubscriberRef};

#[test]
fn min_max_avg_of_durations() {
    assert_eq!(calculate_min_max_avg(&[3, -1, 4]), Some((-1, 4, 2)));
    assert_eq!(calculate_min_max_avg(&[]), None);
    assert_eq!(calculate_min_max_avg(&[i64::MAX, i64::MAX]), Some((i64::MAX, i64::MAX, i64::MAX)));
}

#[test]
fn mean_rounds_toward_zero() {
    assert_eq!(mean(&[-3, -4]), -3);
    assert_eq!(mean(&[3, 4]), 3);
    assert_eq!(DisplayDurationStats::with_comma(&[10, 20, 31]).mean(), 20);
}

#[test]
fn duration_stats_separators() {
    assert_eq!(DisplayDurationStats::with_comma(&[1]).separator(), ", ");
    assert_eq!(DisplayDurationStats::with_newline(&[1]).separator(), "\n");
    assert_eq!(DisplayDurationStats::new(&[1, 2], " | ").values(), &[1, 2]);
}

#[test]
fn texts_order_character_by_character() {
    assert_eq!(compare_text("abc", "abd"), Ordering::Less);
    assert_eq!(compare_text("ab", "abc"), Ordering::Less);
    assert_eq!(compare_text("b", "abc"), Ordering::Greater);
    assert_eq!(compare_text("/x", "/x"), Ordering::Equal);
    assert_eq!(text_order("z", "a"), 1);
    assert!(same_text("topic", "topic"));
    assert!(!same_text("topic", "topics"));
}

#[test]
fn keyed_list_keeps_insertion_order() {
    let mut list: KeyedList<i64> = KeyedList::new();
    assert_eq!(list.push(7, 70), 0);
    assert_eq!(list.push(3, 30), 1);
    list.set(7, 71);
    list.set(9, 90);
    assert_eq!(list.len(), 3);
    assert_eq!(list.key(2), 9);
    assert_eq!(list.get(7), Some(&71));
    assert_eq!(list.position(3), Some(1));
    assert_eq!(list.get(4), None);
    let mut series: KeyedList<Vec<i64>> = KeyedList::new();
    series.append(5, 1);
    series.append(6, 2);
    series.append(5, 3);
    assert_eq!(series.value(0), &vec![1, 3]);
    assert_eq!(series.value(1), &vec![2]);
    series.clear();
    assert_eq!(series.len(), 0);
}

#[test]
fn running_callbacks_per_thread() {
    let a = Context::new(0, 1, 10, "p".to_string(), "host-a".to_string());
    let b = Context::new(0, 1, 10, "p".to_string(), "host-b".to_string());
    let mut running = RunningCallbacks::new();
    running.insert(&a, CallbackInstanceRef(3));
    assert_eq!(running.get(&a), Some(CallbackInstanceRef(3)));
    assert_eq!(running.get(&b), None);
    running.insert(&b, CallbackInstanceRef(4));
    assert_eq!(running.remove(&a), Some(CallbackInstanceRef(3)));
    assert_eq!(running.remove(&a), None);
    assert_eq!(running.get(&b), Some(CallbackInstanceRef(4)));
}

#[test]
fn edges_join_their_ends() {
    let e = Edge::PublicationInCallback(PublisherRef(1), CallbackRef(2));
    assert!(matches!(e.source(), GraphNode::Callback(CallbackRef(2))));
    assert!(matches!(e.target(), GraphNode::Publisher(PublisherRef(1))));
    let c = Edge::PublisherSubscriberCommunication(PublisherRef(1), SubscriberRef(5));
    assert!(matches!(c.source(), GraphNode::Publisher(PublisherRef(1))));
    assert!(matches!(c.target(), GraphNode::Subscriber(SubscriberRef(5))));
    assert!(e.same(&Edge::PublicationInCallback(PublisherRef(1), CallbackRef(2))));
    assert!(!e.same(&c));
}

#[test]
fn chart_labels() {
    assert_eq!(ChartOutputFormat::default_format().label(), "svg");
    assert_eq!(ChartOutputFormat::PNG.label(), "png");
    assert_eq!(ChartedValue::MessagesLatency.label(), "Latency");
    assert_eq!(ChartVariants::Histogram(HistogramData { bins: Some(4) }).label(), "Histogram");
    assert_eq!(ChartVariants::Scatter.label(), "Scatter");
    assert_eq!(AnalysisProperty::CallbackDuration.label(), "Callback execution time");
}

#[test]
fn path_arguments_name_files() {
    assert_eq!(choose_path(false, false), PathChoice::InCurrentDirectory);
    assert_eq!(choose_path(true, true), PathChoice::InGivenDirectory);
    assert_eq!(choose_path(true, false), PathChoice::AsGiven);
    let args = ExtractArgs::new("id=1".to_string(), AnalysisProperty::MessagesLatency, Some("data".to_string()), None);
    assert_eq!(args.element_id(), "id=1");
    assert_eq!(args.input_path(true), (Some("data"), PathChoice::InGivenDirectory));
    assert_eq!(args.output_path(false), (None, PathChoice::InCurrentDirectory));
    let viewer = ViewerArgs { input: ".".to_string(), viewer: "main.py".to_string() };
    assert_eq!(viewer.input_path(true), PathChoice::InGivenDirectory);
    assert_eq!(viewer.input_path(false), PathChoice::AsGiven);
}

#[test]
fn message_kinds_decide_the_action() {
    let mut iter = ProcessedEventsIter::new();
    assert_eq!(iter.on_message(BtMessageType::StreamBeginning), MessageAction::Skip);
    assert_eq!(iter.on_message(BtMessageType::PacketEnd), MessageAction::Skip);
    assert_eq!(iter.on_message(BtMessageType::DiscardedEvents), MessageAction::SkipWithWarning);
    assert_eq!(iter.on_message(BtMessageType::MessageIteratorInactivity), MessageAction::SkipWithWarning);
    assert_eq!(iter.on_message(BtMessageType::Event), MessageAction::Decode);
    iter.on_unsupported_tracepoint();
    let counters = iter.counters();
    assert_eq!(counters.other_messages, 2);
    assert_eq!(counters.other_events, 1);
    assert_eq!(counters.ros_processed_events, 0);
}

use ros2_trace_analyzer::analysis::callback_duration::ExecutionData;
use ros2_trace_analyzer::analysis::utilization::execution_stats_per_thread;
use ros2_trace_analyzer::events_common::Time;

fn execution(tid: u32, duration: i64) -> ExecutionData {
    ExecutionData { start_time: Time::from_nanos(0), duration, tid, cpuid: 0 }
}

#[test]
fn executions_are_summed_per_thread() {
    let data = [execution(5, 10), execution(6, 1), execution(5, 30)];
    assert_eq!(execution_stats_per_thread(&data), vec![(5, 2, 40), (6, 1, 1)]);
    assert_eq!(execution_stats_per_thread(&[]), vec![]);
}

#[test]
fn complete_names_as_text() {
    let interface = RosInterfaceCompleteName { interface: "Subscriber(/chatter)".to_string(), node: "/listener".to_string() };
    assert_eq!(interface.to_string(), "/listener::Subscriber(/chatter)");
    let channel = RosChannelCompleteName {
        source_node: "/talker".to_string(),
        destination_node: "/listener".to_string(),
        topic: "/chatter".to_string(),
    };
    assert_eq!(channel.to_string(), "/talker-(/chatter)>/listener");
}

#[test]
fn analyses_run_by_name_or_all() {
    assert!(runs_all(false, false));
    assert!(runs_all(true, true));
    assert!(!runs_all(false, true));
    assert_eq!(output_name(Some("out.json"), filenames::MESSAGE_LATENCY, false), Some("out.json"));
    assert_eq!(output_name(None, filenames::MESSAGE_LATENCY, true), Some("message_latency.json"));
    assert_eq!(output_name(None, filenames::SPIN_DURATION, false), None);
}

#[test]
fn times_are_ordered_by_nanoseconds() {
    let (a, b) = (Time::from_nanos(-5), Time::from_nanos(7));
    assert!(a < b);
    assert_eq!(compare_times(a, b), Ordering::Less);
    assert_eq!(compare_times(b, a), Ordering::Greater);
    assert_eq!(compare_times(a, a), Ordering::Equal);
    let mut times = vec![b, a, Time::from_nanos(0)];
    times.sort();
    assert_eq!(times, vec![a, Time::from_nanos(0), b]);
    assert_eq!(Time::from_nanos(42).timestamp_nanos(), 42);
}
