use tracker_core::acc::{fml_acc_is_on, fml_acc_status_get, FmlAcc};
use tracker_core::msg::{msg_req, msg_rpy, pal_at_urc_task, Category, Msg, Queue};
use tracker_core::storage::{
    FmLTempNvm, FmlAccStatus, FmlGnssNvm, FmlGnssStatus, FmlNetAttachStatus, FmlNetConnStatus,
};
use tracker_core::systime::{FmlSysTime, FmlSystimeUpdateSource};
use tracker_core::urc::URCMessages;

#[test]
fn states_are_ordered_by_rank() {
    let attach = [
        FmlNetAttachStatus::NoSim,
        FmlNetAttachStatus::SimReady,
        FmlNetAttachStatus::NoService,
        FmlNetAttachStatus::InCall,
        FmlNetAttachStatus::GSMService,
        FmlNetAttachStatus::LTEService,
    ];
    for (n, s) in attach.iter().enumerate() {
        assert_eq!(s.rank() as usize, n);
        assert_eq!(FmlNetAttachStatus::from(n as u8), *s);
    }
    assert_eq!(FmlNetAttachStatus::from(6), FmlNetAttachStatus::NoSim);
    assert_eq!(FmlNetAttachStatus::from(255), FmlNetAttachStatus::NoSim);

    let conn = [
        FmlNetConnStatus::Down,
        FmlNetConnStatus::Connecting,
        FmlNetConnStatus::Connected,
        FmlNetConnStatus::Logined,
        FmlNetConnStatus::NotConnect,
    ];
    for (n, s) in conn.iter().enumerate() {
        assert_eq!(s.rank() as usize, n);
        assert_eq!(FmlNetConnStatus::from(n as u8), *s);
    }
    assert_eq!(FmlNetConnStatus::from(5), FmlNetConnStatus::Down);

    let gnss = [
        FmlGnssStatus::Off,
        FmlGnssStatus::On,
        FmlGnssStatus::Fix2D,
        FmlGnssStatus::Fix3D,
        FmlGnssStatus::NotOpen,
    ];
    for (n, s) in gnss.iter().enumerate() {
        assert_eq!(s.rank() as usize, n);
        assert_eq!(FmlGnssStatus::from(n as u8), *s);
    }
    assert_eq!(FmlGnssStatus::from(9), FmlGnssStatus::Off);

    assert_eq!(FmlAccStatus::from(0), FmlAccStatus::Off);
    assert_eq!(FmlAccStatus::from(1), FmlAccStatus::On);
    assert_eq!(FmlAccStatus::from(2), FmlAccStatus::Off);
    assert_eq!((FmlAccStatus::Off.rank(), FmlAccStatus::On.rank()), (0, 1));
}

#[test]
fn default_settings() {
    assert_eq!(FmLTempNvm::default().detect_inv, 5);
    let gnss = FmlGnssNvm::default();
    assert!(gnss.gps_sw);
    assert_eq!((gnss.acc_on_itv_sec, gnss.acc_off_itv_sec), (60, 0));
    assert!(gnss.last_gnss_data.is_none() && gnss.cur_gnss_data.is_none());
}

#[test]
fn motion_needs_a_burst_of_vibrations() {
    let mut acc = FmlAcc::new(0);
    assert_eq!(fml_acc_status_get(&acc), FmlAccStatus::Off);
    for t in [1_000, 2_000, 3_000] {
        acc.fml_acc_msg_rpy_task(t);
        assert!(!fml_acc_is_on(&acc));
    }
    assert_eq!(acc.vib_cnt, 3);
    acc.fml_acc_msg_rpy_task(4_000);
    assert!(fml_acc_is_on(&acc));
    assert_eq!(acc.last_vib_time, 4_000);
}

#[test]
fn a_gap_restarts_the_burst() {
    let mut acc = FmlAcc::new(0);
    acc.fml_acc_msg_rpy_task(1_000);
    acc.fml_acc_msg_rpy_task(2_000);
    acc.fml_acc_msg_rpy_task(12_000);
    assert_eq!(acc.vib_cnt, 3);
    acc.fml_acc_msg_rpy_task(22_001);
    assert_eq!(acc.vib_cnt, 1);
    assert!(!fml_acc_is_on(&acc));
}

#[test]
fn stillness_switches_motion_off_after_three_minutes() {
    let mut acc = FmlAcc { status: FmlAccStatus::On, vib_cnt: 3, last_vib_time: 10_000 };
    acc.quiet_check(190_000);
    assert!(fml_acc_is_on(&acc));
    acc.quiet_check(190_001);
    assert!(!fml_acc_is_on(&acc));
    acc.fml_acc_status_set(FmlAccStatus::On);
    assert!(fml_acc_is_on(&acc));
}

#[test]
fn clock_takes_better_or_fresher_sources() {
    let mut clock = FmlSysTime::new();
    assert_eq!(clock.fml_system_time_get_ms(5_000), 0);
    assert_eq!(clock.fml_system_time_get_sec(5_000), 0);
    assert!(!clock.fml_system_time_set(FmlSystimeUpdateSource::Gnss, None, 0, 0));
    assert!(!clock.fml_system_time_set(FmlSystimeUpdateSource::NoSource, Some(1), 500_000, 0));
    assert!(clock.fml_system_time_set(FmlSystimeUpdateSource::Gnss, Some(1_700_000_000), 100, 1_000));
    assert_eq!(clock.fml_system_time_get_ms(1_000), 1_700_000_000_000);
    assert_eq!(clock.fml_system_time_get_ms(3_500), 1_700_000_002_500);
    assert_eq!(clock.fml_system_time_get_sec(3_500), 1_700_000_002);

    assert!(!clock.fml_system_time_set(FmlSystimeUpdateSource::Gnss, Some(5), 240_100, 2_000));
    assert!(clock.fml_system_time_set(FmlSystimeUpdateSource::Gnss, Some(1_700_000_300), 240_101, 2_000));
    assert!(clock.fml_system_time_set(FmlSystimeUpdateSource::Net, Some(1_700_000_400), 240_102, 3_000));
    assert_eq!(clock.last_source, FmlSystimeUpdateSource::Net);
    assert!(!clock.fml_system_time_set(FmlSystimeUpdateSource::Gnss, Some(7), 9_000_000, 4_000));
    assert_eq!(clock.last_stamp, 1_700_000_400);
    assert!(!clock.fml_system_time_set(FmlSystimeUpdateSource::Net, Some(8), 480_102, 4_000));
    assert!(clock.fml_system_time_set(FmlSystimeUpdateSource::Net, Some(8), 480_103, 4_000));
}

#[test]
fn clock_saturates_and_rounds_towards_zero() {
    let far = FmlSysTime {
        last_source: FmlSystimeUpdateSource::Net,
        last_stamp: i64::MAX,
        last_rtc: 0,
        last_instant: Some(0),
    };
    assert_eq!(far.fml_system_time_get_ms(10), i64::MAX);
    let early = FmlSysTime { last_stamp: -2, ..far };
    assert_eq!(early.fml_system_time_get_ms(500), -1_500);
    assert_eq!(early.fml_system_time_get_sec(500), -1);
    let first = FmlSysTime { last_stamp: i64::MIN, ..far };
    assert_eq!(first.fml_system_time_get_ms(0), i64::MIN);
    assert_eq!(first.fml_system_time_get_sec(0), i64::MIN / 1000);
}

#[test]
fn requests_are_routed_by_category() {
    assert_eq!(Msg::GnssOpenReq.category(), Category::Gnss);
    assert_eq!(Msg::Empty.category(), Category::Unrouted);
    assert_eq!(msg_req(&Msg::GnssOpenReq), Some(Queue::Modem));
    assert_eq!(msg_req(&Msg::NetGetTimeReq), Some(Queue::Modem));
    assert_eq!(msg_req(&Msg::MqttPubReq), Some(Queue::Modem));
    assert_eq!(msg_req(&Msg::TsensorGetReq), Some(Queue::Tsensor));
    assert_eq!(msg_req(&Msg::ModemReady), None);
    assert_eq!(msg_req(&Msg::GsensorVibEvent), None);
}

#[test]
fn replies_are_routed_to_their_tasks() {
    assert_eq!(msg_rpy(&Msg::TsensorGetRpy { temp: 2_150, humi: 4_000 }), vec![Queue::Temp]);
    assert_eq!(msg_rpy(&Msg::GsensorVibEvent), vec![Queue::Acc]);
    assert_eq!(msg_rpy(&Msg::NetSimStatRpy(true)), vec![Queue::NetStatus]);
    assert_eq!(msg_rpy(&Msg::MqttConnRpy(true)), vec![Queue::NetStatus]);
    assert_eq!(msg_rpy(&Msg::MqttPubRpy(true)), vec![Queue::NetSend]);
    assert_eq!(msg_rpy(&Msg::MqttPubReq), vec![]);
    assert_eq!(msg_rpy(&Msg::GnssGetLoactionRpy(None)), vec![Queue::GnssData]);
    assert_eq!(msg_rpy(&Msg::GnssOpenRpy(true)), vec![Queue::GnssControl]);
    assert_eq!(msg_rpy(&Msg::ModemReady), vec![Queue::GnssControl, Queue::NetStatus]);
    assert_eq!(msg_rpy(&Msg::ModemInitReq), vec![]);
    assert_eq!(msg_rpy(&Msg::Empty), vec![]);
}

#[test]
fn notifications_become_messages() {
    assert_eq!(
        pal_at_urc_task(&URCMessages::QmtOpen { client_idx: 1, result: 0 }),
        (None, Some(Msg::MqttOpenRpy(true)))
    );
    assert_eq!(
        pal_at_urc_task(&URCMessages::QmtOpen { client_idx: 1, result: 2 }),
        (None, Some(Msg::MqttOpenRpy(true)))
    );
    assert_eq!(
        pal_at_urc_task(&URCMessages::QmtOpen { client_idx: 1, result: 3 }),
        (None, Some(Msg::MqttOpenRpy(false)))
    );
    assert_eq!(
        pal_at_urc_task(&URCMessages::QmtConn { client_idx: 1, result: 1, ret_code: 0 }),
        (None, Some(Msg::MqttConnRpy(false)))
    );
    assert_eq!(
        pal_at_urc_task(&URCMessages::QmtPubex { client_idx: 1, result: 0, ret_code: 9 }),
        (None, Some(Msg::MqttPubRpy(true)))
    );
    assert_eq!(
        pal_at_urc_task(&URCMessages::CREG { stat: 1, lac: 2, ci: 3, act: 7 }),
        (None, Some(Msg::NetAttachStatRpy { stat: 1, lac: Some(2), ci: Some(3), act: Some(7) }))
    );
    assert_eq!(
        pal_at_urc_task(&URCMessages::RDY),
        (Some(Msg::ModemInitReq), Some(Msg::ModemReady))
    );
    assert_eq!(pal_at_urc_task(&URCMessages::Unknown), (None, None));
    assert_eq!(pal_at_urc_task(&URCMessages::Gnss { update: true }), (None, None));
}
