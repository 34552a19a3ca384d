use tracker_core::delivery::DeliveryQueue;
use tracker_core::msg::Msg;
use tracker_core::storage::{FmlGnssData, FmlNetSendType, FmlTempHumiData};

fn location(n: i32) -> FmlGnssData {
    FmlGnssData::new(1, 2_000_000 + n, 1_000_000 + n)
}

#[test]
fn only_one_item_is_in_flight() {
    let mut queue = DeliveryQueue::new();
    assert!(queue.enqueue_location(location(1)));
    assert!(queue.enqueue_location(location(2)));
    assert!(queue.enqueue_location(location(3)));

    assert_eq!(queue.dispatch(true, 1_000), Some(FmlNetSendType::Location(location(1))));
    assert_eq!(queue.in_flight(), Some(FmlNetSendType::Location(location(1))));
    assert_eq!(queue.dispatch(true, 2_000), None);
    assert_eq!(queue.fml_net_send_task(&Msg::MqttPubReq, true, 3_000), None);
    assert_eq!(queue.len(), (3, 0));

    assert_eq!(
        queue.fml_net_send_task(&Msg::MqttPubRpy(true), true, 4_000),
        Some(FmlNetSendType::Location(location(2)))
    );
    assert_eq!(queue.len(), (2, 0));
    assert_eq!(queue.in_flight(), Some(FmlNetSendType::Location(location(2))));
}

#[test]
fn positions_go_before_samples() {
    let mut queue = DeliveryQueue::new();
    let sample = FmlTempHumiData::new(0, 2_467, 8_186);
    assert!(queue.enqueue_temp_humi(sample));
    assert!(queue.enqueue_location(location(1)));
    assert_eq!(queue.dispatch(true, 0), Some(FmlNetSendType::Location(location(1))));
    queue.acknowledge(true);
    assert_eq!(queue.len(), (0, 1));
    assert_eq!(queue.dispatch(true, 0), Some(FmlNetSendType::TempHumi(sample)));
    queue.acknowledge(true);
    assert_eq!(queue.len(), (0, 0));
    assert_eq!(queue.in_flight(), None);
    assert_eq!(queue.dispatch(true, 0), None);
}

#[test]
fn acknowledgement_dequeues_from_the_buffer_in_flight() {
    let mut queue = DeliveryQueue::new();
    let sample = FmlTempHumiData::new(0, 100, 200);
    queue.enqueue_temp_humi(sample);
    assert_eq!(queue.dispatch(true, 0), Some(FmlNetSendType::TempHumi(sample)));
    queue.enqueue_location(location(1));
    queue.acknowledge(true);
    assert_eq!(queue.len(), (1, 0));
}

#[test]
fn failure_keeps_the_item_for_the_next_dispatch() {
    let mut queue = DeliveryQueue::new();
    queue.enqueue_location(location(1));
    assert_eq!(queue.dispatch(true, 0), Some(FmlNetSendType::Location(location(1))));
    assert_eq!(
        queue.fml_net_send_task(&Msg::MqttPubRpy(false), true, 100),
        Some(FmlNetSendType::Location(location(1)))
    );
    assert_eq!(queue.len(), (1, 0));
}

#[test]
fn timeout_after_ten_seconds_counts_as_failure() {
    let mut queue = DeliveryQueue::new();
    queue.enqueue_location(location(1));
    queue.enqueue_location(location(2));
    assert_eq!(queue.dispatch(true, 5_000), Some(FmlNetSendType::Location(location(1))));
    assert_eq!(queue.dispatch(true, 15_000), None);
    assert_eq!(queue.dispatch(true, 15_001), Some(FmlNetSendType::Location(location(1))));
    assert_eq!(queue.len(), (2, 0));
    assert_eq!(queue.dispatch(true, 25_001), None);
}

#[test]
fn nothing_is_dispatched_before_login() {
    let mut queue = DeliveryQueue::new();
    queue.enqueue_location(location(1));
    assert_eq!(queue.dispatch(false, 0), None);
    assert_eq!(queue.in_flight(), None);
    assert_eq!(queue.fml_net_send_task(&Msg::ModemReady, true, 0), None);
    assert_eq!(queue.in_flight(), None);
}

#[test]
fn full_buffer_drops_the_new_item() {
    let mut queue = DeliveryQueue::new();
    for n in 0..127 {
        assert!(queue.enqueue_location(location(n)), "{}", n);
    }
    assert!(!queue.enqueue_location(location(127)));
    assert_eq!(queue.len(), (127, 0));
    assert!(queue.enqueue_temp_humi(FmlTempHumiData::new(0, 1, 2)));
    assert_eq!(queue.dispatch(true, 0), Some(FmlNetSendType::Location(location(0))));
    queue.acknowledge(true);
    assert!(queue.enqueue_location(location(128)));
    assert_eq!(queue.len(), (127, 1));
}
