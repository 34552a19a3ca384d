use tracker_core::msg::Msg;
use tracker_core::net::{
    attach_of, fml_net_att_status_get, fml_net_conn_status_get, fml_net_mqtt_connect,
    fml_net_mqtt_open, fml_net_mqtt_pub_req, FmlNet, NetAction,
};
use tracker_core::storage::{FmlNetAttachStatus, FmlNetConnStatus};

fn step(net: &mut FmlNet, msg: Msg, time_known: bool) -> Vec<NetAction> {
    let mut actions = Vec::new();
    net.fml_net_status_task(&msg, time_known, &mut actions);
    actions
}

fn registered(act: Option<u8>) -> Msg {
    Msg::NetAttachStatRpy { stat: 1, lac: Some(0x1A2B), ci: Some(0x0123_ABCD), act }
}

#[test]
fn startup_asks_for_the_sim() {
    let mut net = FmlNet::new();
    let mut actions = Vec::new();
    net.start(true, &mut actions);
    assert_eq!(actions, vec![NetAction::Request(Msg::NetSimStatReq)]);
    assert_eq!(fml_net_att_status_get(&net), FmlNetAttachStatus::NoSim);
    assert_eq!(fml_net_conn_status_get(&net), FmlNetConnStatus::Down);
}

#[test]
fn setting_the_current_attach_state_unforced_asks_for_nothing() {
    for status in [
        FmlNetAttachStatus::NoSim,
        FmlNetAttachStatus::SimReady,
        FmlNetAttachStatus::NoService,
        FmlNetAttachStatus::InCall,
        FmlNetAttachStatus::GSMService,
        FmlNetAttachStatus::LTEService,
    ] {
        let mut net = FmlNet { att_status: status, conn_status: FmlNetConnStatus::Down, retry: 1 };
        let before = net;
        let mut actions = vec![NetAction::PublishSignal];
        net.fml_net_att_status_set(status, false, false, &mut actions);
        assert_eq!(net, before);
        assert_eq!(actions, vec![NetAction::PublishSignal]);
    }
}

#[test]
fn setting_the_current_session_state_unforced_asks_for_nothing() {
    let mut net = FmlNet {
        att_status: FmlNetAttachStatus::LTEService,
        conn_status: FmlNetConnStatus::Connecting,
        retry: 0,
    };
    let mut actions = Vec::new();
    net.fml_net_conn_status_set(FmlNetConnStatus::Connecting, false, &mut actions);
    assert!(actions.is_empty());
    net.fml_net_conn_status_set(FmlNetConnStatus::Connecting, true, &mut actions);
    assert_eq!(actions, vec![NetAction::Request(Msg::MqttOpenReq)]);
}

#[test]
fn registration_report_picks_the_attach_state() {
    assert_eq!(attach_of(1, Some(1), Some(1), Some(7)), FmlNetAttachStatus::LTEService);
    assert_eq!(attach_of(5, Some(1), Some(1), Some(4)), FmlNetAttachStatus::LTEService);
    assert_eq!(attach_of(1, Some(1), Some(1), Some(3)), FmlNetAttachStatus::GSMService);
    assert_eq!(attach_of(5, Some(1), Some(1), Some(0)), FmlNetAttachStatus::GSMService);
    assert_eq!(attach_of(1, None, None, None), FmlNetAttachStatus::LTEService);
    assert_eq!(attach_of(1, Some(1), None, Some(0)), FmlNetAttachStatus::LTEService);
    assert_eq!(attach_of(0, Some(1), Some(1), Some(7)), FmlNetAttachStatus::NoService);
    assert_eq!(attach_of(2, None, None, None), FmlNetAttachStatus::NoService);
}

#[test]
fn attach_opens_the_session_and_asks_for_the_time() {
    let mut net = FmlNet::new();
    assert_eq!(
        step(&mut net, Msg::NetSimStatRpy(true), false),
        vec![NetAction::Request(Msg::NetAttachStatReq(None))]
    );
    assert_eq!(net.att_status, FmlNetAttachStatus::SimReady);
    assert_eq!(
        step(&mut net, registered(Some(7)), false),
        vec![NetAction::Request(Msg::MqttOpenReq), NetAction::Request(Msg::NetGetTimeReq)]
    );
    assert_eq!(net.att_status, FmlNetAttachStatus::LTEService);
    assert_eq!(net.conn_status, FmlNetConnStatus::Connecting);
    assert_eq!(step(&mut net, registered(Some(7)), false), vec![]);
    assert_eq!(step(&mut net, registered(Some(2)), true), vec![]);
    assert_eq!(net.att_status, FmlNetAttachStatus::GSMService);
    assert_eq!(net.conn_status, FmlNetConnStatus::Connecting);
}

#[test]
fn session_walks_up_to_logged_in() {
    let mut net = FmlNet {
        att_status: FmlNetAttachStatus::LTEService,
        conn_status: FmlNetConnStatus::Connecting,
        retry: 2,
    };
    assert_eq!(
        step(&mut net, Msg::MqttOpenRpy(true), true),
        vec![NetAction::Request(Msg::MqttConnReq)]
    );
    assert_eq!((net.conn_status, net.retry), (FmlNetConnStatus::Connected, 0));
    assert_eq!(step(&mut net, Msg::MqttConnRpy(true), true), vec![NetAction::PublishSignal]);
    assert_eq!((net.conn_status, net.retry), (FmlNetConnStatus::Logined, 0));
}

#[test]
fn open_failures_are_retried_twice_then_frozen() {
    let mut net = FmlNet {
        att_status: FmlNetAttachStatus::LTEService,
        conn_status: FmlNetConnStatus::Connecting,
        retry: 0,
    };
    assert_eq!(
        step(&mut net, Msg::MqttOpenRpy(false), true),
        vec![NetAction::Request(Msg::MqttOpenReq)]
    );
    assert_eq!(
        step(&mut net, Msg::MqttOpenRpy(false), true),
        vec![NetAction::Request(Msg::MqttOpenReq)]
    );
    assert_eq!(step(&mut net, Msg::MqttOpenRpy(false), true), vec![]);
    assert_eq!(step(&mut net, Msg::MqttOpenRpy(false), true), vec![]);
    assert_eq!((net.conn_status, net.retry), (FmlNetConnStatus::Connecting, 4));
}

#[test]
fn connect_failures_reenter_connected() {
    let mut net = FmlNet {
        att_status: FmlNetAttachStatus::LTEService,
        conn_status: FmlNetConnStatus::Connected,
        retry: 0,
    };
    assert_eq!(
        step(&mut net, Msg::MqttConnRpy(false), true),
        vec![NetAction::Request(Msg::MqttConnReq)]
    );
    assert_eq!((net.conn_status, net.retry), (FmlNetConnStatus::Connected, 1));
    net.retry = u32::MAX;
    assert_eq!(step(&mut net, Msg::MqttConnRpy(false), true), vec![]);
    assert_eq!(net.retry, u32::MAX);
}

#[test]
fn ready_banner_resets_both_machines() {
    let mut net = FmlNet {
        att_status: FmlNetAttachStatus::LTEService,
        conn_status: FmlNetConnStatus::Logined,
        retry: 1,
    };
    assert_eq!(
        step(&mut net, Msg::ModemReady, true),
        vec![NetAction::Request(Msg::NetSimStatReq)]
    );
    assert_eq!(net.att_status, FmlNetAttachStatus::NoSim);
    assert_eq!(net.conn_status, FmlNetConnStatus::Down);
}

#[test]
fn missing_sim_is_asked_for_again() {
    let mut net = FmlNet::new();
    assert_eq!(
        step(&mut net, Msg::NetSimStatRpy(false), true),
        vec![NetAction::Request(Msg::NetSimStatReq)]
    );
}

#[test]
fn loss_of_service_and_network_time() {
    let mut net = FmlNet {
        att_status: FmlNetAttachStatus::LTEService,
        conn_status: FmlNetConnStatus::Logined,
        retry: 0,
    };
    assert_eq!(
        step(&mut net, Msg::NetAttachStatRpy { stat: 0, lac: None, ci: None, act: None }, true),
        vec![NetAction::Request(Msg::NetAttachStatReq(None))]
    );
    assert_eq!(net.att_status, FmlNetAttachStatus::NoService);
    assert_eq!(net.conn_status, FmlNetConnStatus::Logined);
    assert_eq!(
        step(&mut net, Msg::NetGetTimeRpy(1_700_000_000), true),
        vec![NetAction::SetTimeFromNet(1_700_000_000)]
    );
    assert_eq!(step(&mut net, Msg::GsensorVibEvent, true), vec![]);
}

#[test]
fn control_surface_requests() {
    assert_eq!(fml_net_mqtt_open(), Msg::MqttOpenReq);
    assert_eq!(fml_net_mqtt_connect(), Msg::MqttConnReq);
    assert_eq!(fml_net_mqtt_pub_req(), Msg::MqttPubReq);
    assert_eq!(tracker_core::temp::fml_temp_humi_get_req(), Msg::TsensorGetReq);
}
