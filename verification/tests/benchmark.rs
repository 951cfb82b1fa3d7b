use network_benchmark::add;
use network_benchmark::config::BenchmarkConfig;
use network_benchmark::messages::{
    direct_action, reply_to, report_reply, rpc_reply, BenchmarkDataReply, BenchmarkDataSend,
    BenchmarkMessage, DirectAction, ReplyReport,
};
use network_benchmark::network::ConnectionType;
use network_benchmark::send_log::{BenchmarkSharedState, SendRecord, SENT_RECORD_CAPACITY};
use network_benchmark::service::{
    next_step, work_queue_capacity, worker_threads, NetworkEventKind, ServiceStep,
};
use network_benchmark::testcases::PartialNodesDown;

fn record(request_counter: u64, send_micros: i64, bytes_sent: usize) -> SendRecord {
    SendRecord { request_counter, send_micros, bytes_sent }
}

#[test]
fn it_works() {
    let result = add(2, 2);
    assert_eq!(result, 4);
}

#[test]
fn default_config_values() {
    let config = BenchmarkConfig::default();
    assert!(!config.enable_benchmark_service);
    assert_eq!(config.max_network_channel_size, 1000);
    assert_eq!(config.benchmark_service_threads, None);
    assert!(config.enable_direct_send_testing);
    assert_eq!(config.direct_send_data_size, 100 * 1024);
    assert_eq!(config.direct_send_per_second, 1_000);
}

#[test]
fn find_on_empty_log_gives_zeros() {
    let state = BenchmarkSharedState::new();
    assert_eq!(state.find(7), record(0, 0, 0));
}

#[test]
fn find_after_set_gives_the_record() {
    let mut state = BenchmarkSharedState::new();
    state.set(record(1, 100, 10));
    state.set(record(2, 200, 20));
    state.set(record(3, 300, 30));
    assert_eq!(state.find(2), record(2, 200, 20));
    assert_eq!(state.find(3), record(3, 300, 30));
    assert_eq!(state.find(1), record(1, 100, 10));
}

#[test]
fn find_prefers_the_newest_record_of_a_counter() {
    let mut state = BenchmarkSharedState::new();
    state.set(record(5, 100, 1));
    state.set(record(6, 150, 2));
    state.set(record(5, 200, 3));
    assert_eq!(state.find(5), record(5, 200, 3));
}

#[test]
fn unmatched_find_reports_earliest_send_time() {
    let mut state = BenchmarkSharedState::new();
    state.set(record(1, 300, 10));
    state.set(record(2, 100, 20));
    state.set(record(3, 200, 30));
    assert_eq!(state.find(99), record(0, 100, 0));
}

#[test]
fn full_log_overwrites_the_oldest() {
    let mut state = BenchmarkSharedState::new();
    let cap = SENT_RECORD_CAPACITY as u64;
    for i in 0..cap {
        state.set(record(i + 1, 1000 + i as i64, 1));
    }
    assert_eq!(state.find(1), record(1, 1000, 1));
    state.set(record(cap + 1, 5, 2));
    // the first record is gone; the earliest send time now held is the new one
    assert_eq!(state.find(1), record(0, 5, 0));
    assert_eq!(state.find(2), record(2, 1001, 1));
    assert_eq!(state.find(cap + 1), record(cap + 1, 5, 2));
    state.set(record(cap + 2, 7, 3));
    assert_eq!(state.find(2), record(0, 5, 0));
    assert_eq!(state.find(3), record(3, 1002, 1));
}

#[test]
fn record_retained_for_capacity_minus_one_sets() {
    let mut state = BenchmarkSharedState::new();
    state.set(record(42, 10, 4));
    for i in 0..(SENT_RECORD_CAPACITY as u64 - 1) {
        state.set(record(1000 + i, 20, 1));
    }
    assert_eq!(state.find(42), record(42, 10, 4));
    state.set(record(7, 20, 1));
    assert_eq!(state.find(42), record(0, 20, 0));
}

#[test]
fn reply_echoes_request() {
    let send = BenchmarkDataSend { request_counter: 9, send_micros: 1234, data: vec![1, 2, 3] };
    let reply = reply_to(&send, 5678);
    assert_eq!(reply, BenchmarkDataReply { request_counter: 9, send_micros: 5678, your_send_micros: 1234 });
}

#[test]
fn reply_time_is_cut_to_64_bits() {
    let send = BenchmarkDataSend { request_counter: 1, send_micros: 0, data: vec![] };
    let reply = reply_to(&send, (1u128 << 64) + 3);
    assert_eq!(reply.send_micros, 3);
    let reply = reply_to(&send, u64::MAX as u128);
    assert_eq!(reply.send_micros, -1);
}

#[test]
fn direct_send_is_answered_and_reply_is_reported() {
    let send = BenchmarkDataSend { request_counter: 4, send_micros: 10, data: vec![0; 8] };
    assert_eq!(
        direct_action(&BenchmarkMessage::DataSend(send), 50),
        DirectAction::SendReply(BenchmarkDataReply { request_counter: 4, send_micros: 50, your_send_micros: 10 })
    );
    let reply = BenchmarkDataReply { request_counter: 4, send_micros: 50, your_send_micros: 10 };
    assert_eq!(direct_action(&BenchmarkMessage::DataReply(reply), 60), DirectAction::ReportReply(reply));
}

#[test]
fn rpc_answers_only_requests() {
    let send = BenchmarkDataSend { request_counter: 8, send_micros: 11, data: vec![] };
    assert_eq!(
        rpc_reply(&BenchmarkMessage::DataSend(send), 22),
        Some(BenchmarkDataReply { request_counter: 8, send_micros: 22, your_send_micros: 11 })
    );
    let reply = BenchmarkDataReply { request_counter: 8, send_micros: 22, your_send_micros: 11 };
    assert_eq!(rpc_reply(&BenchmarkMessage::DataReply(reply), 33), None);
}

#[test]
fn report_on_matched_and_unmatched_replies() {
    let mut state = BenchmarkSharedState::new();
    state.set(record(12, 1_000, 102_400));
    let reply = BenchmarkDataReply { request_counter: 12, send_micros: 1_400, your_send_micros: 1_000 };
    let rec = state.find(reply.request_counter);
    assert_eq!(
        report_reply(&rec, &reply, 1_900),
        ReplyReport::Matched { request_counter: 12, bytes_sent: 102_400, received_micros: 1_900, latency_micros: 900 }
    );
    let lost = BenchmarkDataReply { request_counter: 13, send_micros: 1_400, your_send_micros: 1_000 };
    let rec = state.find(lost.request_counter);
    assert_eq!(
        report_reply(&rec, &lost, 1_900),
        ReplyReport::Unmatched { request_counter: 13, at_least_micros: 900 }
    );
}

#[test]
fn service_steps() {
    assert_eq!(next_step(Some(NetworkEventKind::Message)), ServiceStep::HandleDirect);
    assert_eq!(next_step(Some(NetworkEventKind::RpcRequest)), ServiceStep::HandleRpc);
    assert_eq!(next_step(Some(NetworkEventKind::NewPeer)), ServiceStep::Ignore);
    assert_eq!(next_step(Some(NetworkEventKind::LostPeer)), ServiceStep::Ignore);
    assert_eq!(next_step(None), ServiceStep::Stop);
}

#[test]
fn worker_thread_choice() {
    assert_eq!(worker_threads(Some(3), Some(16)), 3);
    assert_eq!(worker_threads(None, Some(16)), 16);
    assert_eq!(worker_threads(None, None), 1);
    assert_eq!(work_queue_capacity(3), 6);
    assert_eq!(work_queue_capacity(worker_threads(None, None)), 2);
}

#[test]
fn partial_nodes_down_name_and_split() {
    let test = PartialNodesDown;
    assert_eq!(test.name(), "10%-down");
    let nodes: Vec<u32> = (0..25).collect();
    let (down, up) = test.split_nodes(nodes);
    assert_eq!(down, vec![0, 1]);
    assert_eq!(up, (2..25).collect::<Vec<u32>>());
    let (down, up) = test.split_nodes(vec![1u32, 2, 3]);
    assert!(down.is_empty());
    assert_eq!(up, vec![1, 2, 3]);
}

#[test]
fn connection_types_differ() {
    assert_ne!(ConnectionType::Validator, ConnectionType::PFN);
    assert_eq!(ConnectionType::VFN, ConnectionType::VFN);
}
