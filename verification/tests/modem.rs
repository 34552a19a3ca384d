use tracker_core::adxl345::{
    Adxl345, DataFormatFlags, DataFormatRange, FULL_RES, RANGE_HI, RANGE_LO, SELF_TEST,
};
use tracker_core::drv::{drv_gnss_task, DrvGnssCommand, DrvGnssHandle, DrvGnssMsg, GnssHandle};
use tracker_core::general::{reads, Ec800mErrorCode, OkResp, OnOff, OnOffResp, SendResp};
use tracker_core::gnss_cmds::{NmeaType, Outport};
use tracker_core::modem::{
    init_commands, pal_at_client_reply, pal_at_client_task, AtCommand, ClientContext, Outcome,
};
use tracker_core::mqtt_types::{
    MqttCleanSession, MqttClientIdx, MqttEditMode, MqttPdPCid, MqttQos, MqttRecvLen, MqttRecvMode,
    MqttSendMode, MqttSslCtxIdx, MqttSslMode, MqttTimeOutNotice, MqttVersion, MqttViewMode,
    MqttWillFlag, MqttWillRetain,
};
use tracker_core::msg::Msg;
use tracker_core::mqtt_cmds::{
    QMtCfgAliauthSet, QMtCfgDataFormatSet, QMtCfgEditTimeoutSet, QMtCfgHwauthSet,
    QMtCfgHwprodidSet, QMtCfgKeepAliveSet, QMtCfgPdpcidSet, QMtCfgQmtpingSet, QMtCfgRecvModeSet,
    QMtCfgSendModeSet, QMtCfgSessionSet, QMtCfgSslSet, QMtCfgTimeOutSet, QMtCfgVersionSet,
    QMtCfgViewModeSet, QMtCfgWillSet, QMtCfgWillexSet,
};
use tracker_core::net_cmds::{
    CmgfSet, CmgsSet, CopsQuery, CpinQuery, CpinResp, CregQuery, CregResp, CregSet, QLts,
};
use tracker_core::nmea::{parse_nmea_sentence, NmeaResp};
use tracker_core::storage::{
    dp_topic, FmLNetNvm, FmlGnssData, FmlGnssRawData, FmlNetAttachStatus, FmlNetSendType,
};
use tracker_core::temp::{fml_temp_detect_task, FmlTempAlarm, FmlTempHumiAlarmConfig, TempStep};

fn context() -> ClientContext {
    ClientContext { has_server: true, has_login: true, pending: None }
}

#[test]
fn init_sequence() {
    let expected = vec![
        AtCommand::EchoSet(OnOff::Off),
        AtCommand::UrcPortConfig,
        AtCommand::CregSet(2),
        AtCommand::MqttClose(MqttClientIdx::IDX1),
        AtCommand::CmgfSet(1),
        AtCommand::ConfigSave,
        AtCommand::GpsSet(OnOff::Off),
    ];
    assert_eq!(init_commands(), expected);
    assert_eq!(pal_at_client_task(&Msg::ModemInitReq, &context()), expected);
}

#[test]
fn requests_are_served_with_their_commands() {
    let ctx = context();
    assert_eq!(pal_at_client_task(&Msg::GnssOpenReq, &ctx), vec![AtCommand::GpsSet(OnOff::On)]);
    assert_eq!(pal_at_client_task(&Msg::GnssCloseReq, &ctx), vec![AtCommand::GpsSet(OnOff::Off)]);
    assert_eq!(pal_at_client_task(&Msg::GnssGetLocationReq, &ctx), vec![AtCommand::GpsGetLocation]);
    assert_eq!(pal_at_client_task(&Msg::NetAttachStatReq(Some(2)), &ctx), vec![AtCommand::CregSet(2)]);
    assert_eq!(pal_at_client_task(&Msg::NetAttachStatReq(None), &ctx), vec![AtCommand::CregQuery]);
    assert_eq!(pal_at_client_task(&Msg::NetSimStatReq, &ctx), vec![AtCommand::SimQuery]);
    assert_eq!(pal_at_client_task(&Msg::NetGetTimeReq, &ctx), vec![AtCommand::TimeQuery]);
    assert_eq!(
        pal_at_client_task(&Msg::MqttOpenReq, &ctx),
        vec![
            AtCommand::MqttVersionConfig(MqttClientIdx::IDX1, MqttVersion::V3_1_1),
            AtCommand::MqttOpen(MqttClientIdx::IDX1)
        ]
    );
    assert_eq!(
        pal_at_client_task(&Msg::MqttOpenReq, &ClientContext { has_server: false, ..ctx }),
        vec![AtCommand::MqttVersionConfig(MqttClientIdx::IDX1, MqttVersion::V3_1_1)]
    );
    assert_eq!(
        pal_at_client_task(&Msg::MqttCloseReq, &ctx),
        vec![AtCommand::MqttClose(MqttClientIdx::IDX1)]
    );
    assert_eq!(
        pal_at_client_task(&Msg::MqttConnReq, &ctx),
        vec![AtCommand::MqttConn(MqttClientIdx::IDX1)]
    );
    assert_eq!(
        pal_at_client_task(&Msg::MqttConnReq, &ClientContext { has_login: false, ..ctx }),
        vec![]
    );
    assert_eq!(pal_at_client_task(&Msg::MqttPubReq, &ctx), vec![]);
    let item = FmlNetSendType::Location(FmlGnssData::new(1, 2_000_000, 1_000_000));
    assert_eq!(
        pal_at_client_task(&Msg::MqttPubReq, &ClientContext { pending: Some(item), ..ctx }),
        vec![AtCommand::MqttPublish(MqttClientIdx::IDX1, item)]
    );
    assert_eq!(pal_at_client_task(&Msg::ModemReady, &ctx), vec![]);
}

#[test]
fn outcomes_become_replies() {
    let fix = FmlGnssRawData::default();
    assert_eq!(pal_at_client_reply(&Msg::GnssOpenReq, &Outcome::Done), Some(Msg::GnssOpenRpy(true)));
    assert_eq!(pal_at_client_reply(&Msg::GnssOpenReq, &Outcome::Failed), Some(Msg::GnssOpenRpy(false)));
    assert_eq!(pal_at_client_reply(&Msg::GnssCloseReq, &Outcome::Done), Some(Msg::GnssCloseRpy(true)));
    assert_eq!(
        pal_at_client_reply(&Msg::GnssGetLocationReq, &Outcome::Location(fix)),
        Some(Msg::GnssGetLoactionRpy(Some(fix)))
    );
    assert_eq!(
        pal_at_client_reply(&Msg::GnssGetLocationReq, &Outcome::Failed),
        Some(Msg::GnssGetLoactionRpy(None))
    );
    assert_eq!(
        pal_at_client_reply(
            &Msg::NetAttachStatReq(None),
            &Outcome::Registration { stat: 1, lac: Some(2), ci: None, act: Some(7) }
        ),
        Some(Msg::NetAttachStatRpy { stat: 1, lac: Some(2), ci: None, act: Some(7) })
    );
    assert_eq!(pal_at_client_reply(&Msg::NetAttachStatReq(None), &Outcome::Failed), None);
    assert_eq!(pal_at_client_reply(&Msg::NetAttachStatReq(Some(2)), &Outcome::Done), None);
    assert_eq!(pal_at_client_reply(&Msg::NetSimStatReq, &Outcome::Sim(true)), Some(Msg::NetSimStatRpy(true)));
    assert_eq!(pal_at_client_reply(&Msg::NetSimStatReq, &Outcome::Failed), None);
    assert_eq!(pal_at_client_reply(&Msg::NetGetTimeReq, &Outcome::Time(5)), Some(Msg::NetGetTimeRpy(5)));
    assert_eq!(pal_at_client_reply(&Msg::MqttConnReq, &Outcome::Failed), Some(Msg::MqttConnRpy(false)));
    assert_eq!(pal_at_client_reply(&Msg::MqttConnReq, &Outcome::Done), None);
    assert_eq!(pal_at_client_reply(&Msg::MqttOpenReq, &Outcome::Failed), None);
}

#[test]
fn gnss_driver_commands() {
    assert_eq!(drv_gnss_task(DrvGnssHandle::init()), vec![]);
    assert_eq!(
        drv_gnss_task(DrvGnssHandle::open()),
        vec![
            DrvGnssCommand::SetOutport(Outport::UartDebug),
            DrvGnssCommand::SetNmeaSrc(OnOff::On),
            DrvGnssCommand::SetAutoGps(OnOff::Off),
            DrvGnssCommand::SetApFlash(OnOff::On),
            DrvGnssCommand::SetSw(OnOff::On),
        ]
    );
    assert_eq!(drv_gnss_task(DrvGnssHandle::close()), vec![DrvGnssCommand::SetSw(OnOff::Off)]);
    assert_eq!(DrvGnssHandle::get_location(), DrvGnssMsg::GetLocation);
    assert_eq!(
        drv_gnss_task(DrvGnssMsg::GetLocation),
        vec![
            DrvGnssCommand::GetNmea(NmeaType::GSV),
            DrvGnssCommand::GetNmea(NmeaType::GSA),
            DrvGnssCommand::GetNmea(NmeaType::GGA),
            DrvGnssCommand::GetNmea(NmeaType::RMC),
        ]
    );
}

#[test]
fn network_commands() {
    assert_eq!(CopsQuery.as_bytes(), b"AT+COPS?\r\n");
    assert_eq!(CregQuery.as_bytes(), b"AT+CREG?\r\n");
    assert_eq!(CregSet { n: 2 }.as_bytes(), b"AT+CREG=2\r\n");
    assert_eq!(CregSet { n: 255 }.as_bytes(), b"AT+CREG=255\r\n");
    assert_eq!(CmgfSet::default().as_bytes(), b"AT+CMGF=1\r\n");
    assert_eq!(CmgsSet { da: "+8613800000000" }.as_bytes(), b"AT+CMGS=\"+8613800000000\"\r\n");
    assert_eq!(CpinQuery.as_bytes(), b"AT+CPIN?\r\n");
    assert_eq!(QLts::default().as_bytes(), b"AT+QLTS=1\r\n");
    assert_eq!(
        QMtCfgVersionSet::new(MqttClientIdx::IDX1, MqttVersion::V3_1_1).as_bytes(),
        b"AT+QMTCFG=\"version\",1,4\r\n"
    );
    assert_eq!(
        QMtCfgPdpcidSet::new(MqttClientIdx::IDX5, MqttPdPCid::I15).as_bytes(),
        b"AT+QMTCFG=\"pdpcid\",5,15\r\n"
    );
}

#[test]
fn network_responses() {
    let attached = CregResp { n: 2, stat: 5, lac: None, ci: None, act: None };
    assert!(attached.is_attached());
    assert!(CregResp { stat: 1, ..attached }.is_attached());
    assert!(!CregResp { stat: 2, ..attached }.is_attached());
    assert!(CpinResp { code: b"READY".to_vec() }.is_ready());
    assert!(!CpinResp { code: b"SIM PIN".to_vec() }.is_ready());
    assert!(!CpinResp { code: b"READY ".to_vec() }.is_ready());
    assert!(!CpinResp { code: vec![] }.is_ready());
}

#[test]
fn setting_codes() {
    assert_eq!(MqttVersion::V3_1.code(), 3);
    assert_eq!(MqttVersion::V3_1_1.code(), 4);
    assert_eq!(MqttPdPCid::I1.code(), 1);
    assert_eq!(MqttQos::Qos2.code(), 2);
    assert_eq!(MqttClientIdx::IDX0.code(), 0);
    assert_eq!(Ec800mErrorCode::Invalid.code(), 501);
    assert_eq!(Ec800mErrorCode::ValidityTimeOutOfRange.code(), 512);
    assert_eq!(Ec800mErrorCode::UnknownError.code(), 549);
}

#[test]
fn sentences_are_collected() {
    let data = b"+QGPSGNMEA: $GPGGA,1,2*47\r\n+QGPSGNMEA: $GPRMC,3*11\r\n\r\nOK\r\n";
    assert_eq!(
        NmeaResp::parse(data).nmeas,
        vec![b"$GPGGA,1,2*47".to_vec(), b"$GPRMC,3*11".to_vec()]
    );
    assert_eq!(NmeaResp::parse(b"\r\n+QGPSGNMEA: $A").nmeas, vec![b"$A".to_vec()]);
    assert_eq!(NmeaResp::parse(b"+QGPSGNMEA: ").nmeas, vec![Vec::<u8>::new()]);
    assert!(NmeaResp::parse(b"OK").nmeas.is_empty());
    assert!(NmeaResp::parse(b"").nmeas.is_empty());
    assert_eq!(parse_nmea_sentence(b"+QGPSGNMEA: $A\r\nrest"), Some((b"$A".to_vec(), 14)));
    assert_eq!(parse_nmea_sentence(b"\r\n+QGPSGNMEA: $A\r\n"), Some((b"$A".to_vec(), 16)));
    assert_eq!(parse_nmea_sentence(b"\r\n\r\n+QGPSGNMEA: $A"), None);
}

#[test]
fn data_format_range_bits() {
    assert_eq!(DataFormatRange::PLUSMINUS_2G.bits().bits, 0);
    assert_eq!(DataFormatRange::PLUSMINUS_4G.bits().bits, 1);
    assert_eq!(DataFormatRange::PLUSMINUS_8G.bits().bits, 2);
    assert_eq!(DataFormatRange::PLUSMINUS_16G.bits().bits, 3);
    for range in [
        DataFormatRange::PLUSMINUS_2G,
        DataFormatRange::PLUSMINUS_4G,
        DataFormatRange::PLUSMINUS_8G,
        DataFormatRange::PLUSMINUS_16G,
    ] {
        assert_eq!(range.bits().range(), range);
        assert_eq!(range.bits().union(DataFormatFlags { bits: SELF_TEST | FULL_RES }).range(), range);
    }
    assert_eq!(DataFormatRange::PLUSMINUS_16G.g(), 16);
    assert_eq!(DataFormatFlags::default(), DataFormatFlags::empty());
    let flags = DataFormatFlags { bits: FULL_RES | RANGE_HI };
    assert!(flags.contains(FULL_RES) && flags.contains(RANGE_HI) && !flags.contains(RANGE_LO));
    let mut adxl = Adxl345::default();
    assert_eq!(adxl.set_data_format(flags), 0b0000_1010);
    assert_eq!(adxl.data_format, flags);
}

#[test]
fn samples_wait_for_the_clock_and_the_radio() {
    let mut alarm = FmlTempAlarm::new();
    let lte = FmlNetAttachStatus::LTEService;
    let quiet = TempStep { sample: None, publish: false, temp_alarm: None, humi_alarm: None };
    assert_eq!(alarm.fml_temp_msg_rpy_task(None, 2_150, 4_000, 0, lte, 0), quiet);
    let step = alarm.fml_temp_msg_rpy_task(None, 2_150, 4_000, 1_700_000_000, FmlNetAttachStatus::NoService, 0);
    assert_eq!(step.sample.map(|s| (s.id, s.temp, s.humi)), Some((1, 2_150, 4_000)));
    assert!(!step.publish);
    let step = alarm.fml_temp_msg_rpy_task(None, 2_150, 4_000, 1_700_000_000, lte, 0);
    assert!(step.publish);
    assert_eq!((step.temp_alarm, step.humi_alarm), (None, None));
}

#[test]
fn alarms_are_raised_once_per_half_hour() {
    let cfg = Some(FmlTempHumiAlarmConfig {
        low_temp: Some(-1_800),
        high_temp: Some(3_000),
        low_humi: None,
        high_humi: Some(8_000),
    });
    let lte = FmlNetAttachStatus::LTEService;
    let mut alarm = FmlTempAlarm::new();
    let step = alarm.fml_temp_msg_rpy_task(cfg, 3_000, 7_999, 1, lte, 1_000);
    assert_eq!((step.temp_alarm, step.humi_alarm), (Some(3_000), None));
    let step = alarm.fml_temp_msg_rpy_task(cfg, 3_100, 8_000, 1, lte, 1_801_000);
    assert_eq!((step.temp_alarm, step.humi_alarm), (None, Some(8_000)));
    let step = alarm.fml_temp_msg_rpy_task(cfg, -1_800, 8_500, 1, lte, 1_801_001);
    assert_eq!((step.temp_alarm, step.humi_alarm), (Some(-1_800), None));
    let step = alarm.fml_temp_msg_rpy_task(cfg, 2_000, 5_000, 1, lte, 1_900_000);
    assert_eq!((step.temp_alarm, step.humi_alarm), (None, None));
    assert_eq!(alarm, FmlTempAlarm::new());
    let step = alarm.fml_temp_msg_rpy_task(cfg, 2_999, 8_000, 1, lte, 1_900_001);
    assert_eq!((step.temp_alarm, step.humi_alarm), (None, Some(8_000)));
}

#[test]
fn sampling_interval() {
    assert_eq!(fml_temp_detect_task(0), None);
    assert_eq!(fml_temp_detect_task(5), Some(300));
    assert_eq!(fml_temp_detect_task(u32::MAX), Some(257_698_037_700));
}

#[test]
fn session_configuration_commands() {
    let idx = MqttClientIdx::IDX1;
    assert_eq!(
        QMtCfgSslSet::new(idx, MqttSslMode::SslTcp, MqttSslCtxIdx::I2).as_bytes(),
        b"AT+QMTCFG=\"ssl\",1,1,2\r\n"
    );
    assert_eq!(QMtCfgKeepAliveSet::new(idx, 3600).as_bytes(), b"AT+QMTCFG=\"keepalive\",1,3600\r\n");
    assert_eq!(QMtCfgKeepAliveSet::new(idx, 3601).keep_alive_time, 120);
    assert_eq!(QMtCfgKeepAliveSet::new(idx, 0).keep_alive_time, 0);
    assert_eq!(
        QMtCfgSessionSet::new(idx, MqttCleanSession::On).as_bytes(),
        b"AT+QMTCFG=\"session\",1,1\r\n"
    );
    assert_eq!(
        QMtCfgTimeOutSet::new(idx, 60, 10, MqttTimeOutNotice::On).as_bytes(),
        b"AT+QMTCFG=\"timeout\",1,60,10,1\r\n"
    );
    let t = QMtCfgTimeOutSet::new(idx, 0, 11, MqttTimeOutNotice::Off);
    assert_eq!((t.pkt_timeout, t.retry_times, t.time_out_notice), (5, 3, 0));
    assert_eq!(QMtCfgTimeOutSet::new(idx, 61, 0, MqttTimeOutNotice::Off).pkt_timeout, 5);
    assert_eq!(QMtCfgTimeOutSet::new(idx, 1, 0, MqttTimeOutNotice::Off).pkt_timeout, 1);
    assert_eq!(
        QMtCfgWillSet::new(idx, MqttWillFlag::On, MqttQos::Qos1, MqttWillRetain::Off, "t/w", "bye")
            .as_bytes(),
        b"AT+QMTCFG=\"will\",1,1,1,0,\"t/w\",\"bye\"\r\n"
    );
    assert_eq!(
        QMtCfgWillexSet::new(idx, MqttWillFlag::On, MqttQos::Qos2, MqttWillRetain::On, "t/w", 3)
            .as_bytes(),
        b"AT+QMTCFG=\"willex\",1,1,2,1,\"t/w\",3\r\n"
    );
    assert_eq!(
        QMtCfgRecvModeSet::new(idx, MqttRecvMode::UrcOn, MqttRecvLen::Off).as_bytes(),
        b"AT+QMTCFG=\"recv/mode\",1,1,0\r\n"
    );
    assert_eq!(
        QMtCfgAliauthSet::new(idx, "pk", "dn", "ds").as_bytes(),
        b"AT+QMTCFG=\"aliauth\",1,\"pk\",\"dn\",\"ds\"\r\n"
    );
    assert_eq!(QMtCfgQmtpingSet::new(idx, 4).qmtping_interval, 5);
    assert_eq!(QMtCfgQmtpingSet::new(idx, 61).qmtping_interval, 5);
    assert_eq!(QMtCfgQmtpingSet::new(idx, 60).as_bytes(), b"AT+QMTCFG=\"qmtping\",1,60\r\n");
    assert_eq!(
        QMtCfgSendModeSet::new(idx, MqttSendMode::Hex).as_bytes(),
        b"AT+QMTCFG=\"send/mode\",1,1\r\n"
    );
    assert_eq!(
        QMtCfgHwauthSet::new(idx, "pid", "sec").as_bytes(),
        b"AT+QMTCFG=\"hwauth\",1,\"pid\",\"sec\"\r\n"
    );
    assert_eq!(
        QMtCfgHwprodidSet::new(idx, "pid", "sec", "node").as_bytes(),
        b"AT+QMTCFG=\"hwprodid\",1,\"pid\",\"sec\",\"node\"\r\n"
    );
    assert_eq!(
        QMtCfgDataFormatSet::new(idx, MqttSendMode::Str, MqttRecvMode::UrcOn).as_bytes(),
        b"AT+QMTCFG=\"dataformat\",1,0,1\r\n"
    );
    assert_eq!(
        QMtCfgViewModeSet::new(idx, MqttViewMode::EchoOn).as_bytes(),
        b"AT+QMTCFG=\"view/mode\",1,1\r\n"
    );
    assert_eq!(
        QMtCfgEditTimeoutSet::new(idx, MqttEditMode::TimeoutOn, 120).as_bytes(),
        b"AT+QMTCFG=\"edit/timeout\",1,1,120\r\n"
    );
    assert_eq!(QMtCfgEditTimeoutSet::new(idx, MqttEditMode::TimeoutOn, 0).edit_time, 30);
    assert_eq!(QMtCfgEditTimeoutSet::new(idx, MqttEditMode::TimeoutOn, 121).edit_time, 30);
}

#[test]
fn result_codes_and_prompts() {
    assert!(OkResp { ok: b"OK".to_vec() }.is_ok());
    assert!(!OkResp { ok: b"ok".to_vec() }.is_ok());
    assert!(!OkResp { ok: b"OK\r".to_vec() }.is_ok());
    let on = OnOffResp { on_off: b"ON".to_vec() };
    assert!(on.is_on() && !on.is_off());
    let off = OnOffResp { on_off: b"OFF".to_vec() };
    assert!(off.is_off() && !off.is_on());
    assert!(SendResp::parse(b"anything").is_send_ready());
    assert!(!SendResp { send_ready: b"".to_vec() }.is_send_ready());
    assert!(reads(b"", ""));
    assert!(!reads(b"READY", "READ"));
}

#[test]
fn session_settings_and_topic() {
    assert_eq!(dp_topic(b"user", b"dev1"), b"$sys/user/dev1/dp/post/json");
    let nvm = FmLNetNvm::new(
        b"mqtt.example.com".to_vec(),
        1883,
        b"dev1".to_vec(),
        b"user".to_vec(),
        b"secret".to_vec(),
    )
    .unwrap();
    assert_eq!((nvm.mqtt_version, nvm.mqtt_idx), (1, 1));
    assert_eq!(nvm.mqtt_server, (b"mqtt.example.com".to_vec(), 1883));
    assert_eq!(nvm.dp_topic, b"$sys/user/dev1/dp/post/json");
    assert_eq!(nvm.send_type, None);
    let long = vec![b'x'; 51];
    assert_eq!(FmLNetNvm::new(long.clone(), 1, vec![], vec![], vec![]), None);
    assert_eq!(FmLNetNvm::new(vec![], 1, long.clone(), vec![], vec![]), None);
    assert_eq!(FmLNetNvm::new(vec![], 1, vec![], long, vec![]), None);
    assert_eq!(FmLNetNvm::new(vec![], 1, vec![], vec![], vec![b'p'; 257]), None);
    assert!(FmLNetNvm::new(vec![], 1, vec![], vec![], vec![b'p'; 256]).is_some());
    assert!(FmLNetNvm::new(vec![], 1, vec![b'c'; 16], vec![b'u'; 15], vec![]).is_some());
    assert_eq!(FmLNetNvm::new(vec![], 1, vec![b'c'; 16], vec![b'u'; 16], vec![]), None);
}
