use tracker_core::gnss::{
    fml_gnss_check_error, fml_gnss_first_loc_filter, fml_gnss_status_get, must_close, FmlGnss,
    Rejection,
};
use tracker_core::msg::Msg;
use tracker_core::storage::{
    FmlAccStatus, FmlGnssData, FmlGnssRawData, FmlGnssStatus, FmlNetAttachStatus,
};

fn micro(degrees: f64) -> i32 {
    (degrees * 1_000_000.0).round() as i32
}

fn hundredths(value: f64) -> u32 {
    (value * 100.0).round() as u32
}

fn fix(lat: f64, lon: f64, speed_kmh: f64, hdop: f64) -> FmlGnssRawData {
    FmlGnssRawData {
        latitude: micro(lat),
        longitude: micro(lon),
        hdop: hundredths(hdop),
        altitude: 1200,
        fix: 3,
        cog: Some(9000),
        spkm: hundredths(speed_kmh),
        spkn: hundredths(speed_kmh / 1.852),
        nsat: 9,
        utc_stamp: 1_700_000_000,
    }
}

fn receiver_on() -> FmlGnss {
    let mut gnss = FmlGnss::new();
    assert_eq!(gnss.fml_gnss_control_task(&Msg::GnssOpenRpy(true)), Some(Msg::GnssGetLocationReq));
    gnss
}

fn feed(gnss: &mut FmlGnss, report: Option<FmlGnssRawData>) -> tracker_core::gnss::FilterStep {
    gnss.fml_gnss_data_filter_task(report, FmlAccStatus::On, FmlNetAttachStatus::LTEService)
}

#[test]
fn plausibility_rules_in_order() {
    let good = fix(1.0, 2.0, 10.0, 1.0);
    assert_eq!(fml_gnss_check_error(&good), 0);
    assert_eq!(fml_gnss_check_error(&FmlGnssRawData { fix: 1, spkm: 40_000, ..good }), -1);
    assert_eq!(fml_gnss_check_error(&FmlGnssRawData { fix: 0, ..good }), -1);
    assert_eq!(fml_gnss_check_error(&FmlGnssRawData { spkm: 30_001, cog: Some(-1), ..good }), -2);
    assert_eq!(fml_gnss_check_error(&FmlGnssRawData { spkm: 30_000, ..good }), 0);
    assert_eq!(fml_gnss_check_error(&FmlGnssRawData { cog: Some(36_001), latitude: 0, ..good }), -3);
    assert_eq!(fml_gnss_check_error(&FmlGnssRawData { cog: Some(-1), ..good }), -3);
    assert_eq!(fml_gnss_check_error(&FmlGnssRawData { cog: Some(36_000), ..good }), 0);
    assert_eq!(fml_gnss_check_error(&FmlGnssRawData { cog: Some(0), ..good }), 0);
    assert_eq!(fml_gnss_check_error(&FmlGnssRawData { cog: None, ..good }), 0);
    assert_eq!(fml_gnss_check_error(&FmlGnssRawData { latitude: 0, ..good }), -4);
    assert_eq!(fml_gnss_check_error(&FmlGnssRawData { longitude: 0, cog: None, ..good }), -4);
}

#[test]
fn hdop_boundary_after_reactivation() {
    assert!(fml_gnss_first_loc_filter(&fix(1.0, 2.0, 0.0, 3.5)));
    assert!(!fml_gnss_first_loc_filter(&fix(1.0, 2.0, 0.0, 3.51)));

    let mut gnss = receiver_on();
    assert_eq!(feed(&mut gnss, Some(fix(1.0, 2.0, 0.0, 3.5))).rejection, None);
    assert_eq!(gnss.filter.gnss_filter_cnt, 0);
    assert_eq!(feed(&mut gnss, Some(fix(1.0, 2.0, 0.0, 3.5))).rejection, None);

    let mut gnss = receiver_on();
    assert_eq!(feed(&mut gnss, Some(fix(1.0, 2.0, 0.0, 3.51))).rejection, Some(Rejection::Imprecise));
    assert_eq!(gnss.filter.gnss_filter_cnt, 1);
    assert_eq!(feed(&mut gnss, Some(fix(1.0, 2.0, 0.0, 3.51))).rejection, Some(Rejection::Imprecise));
    assert_eq!(gnss.filter.gnss_filter_cnt, 2);
    assert_eq!(feed(&mut gnss, Some(fix(1.0, 2.0, 0.0, 3.51))).rejection, None);
    assert_eq!(gnss.filter.gnss_filter_cnt, 2);
    assert_eq!(feed(&mut gnss, Some(fix(1.0, 2.1, 0.0, 99.0))).rejection, None);
    assert_eq!(gnss.filter.gnss_filter_cnt, 2);
}

#[test]
fn absent_fix_restarts_the_startup_phase() {
    let mut gnss = receiver_on();
    assert_eq!(feed(&mut gnss, Some(fix(1.0, 2.0, 0.0, 5.0))).rejection, Some(Rejection::Imprecise));
    assert_eq!(feed(&mut gnss, Some(fix(1.0, 2.0, 0.0, 5.0))).rejection, Some(Rejection::Imprecise));
    let step = feed(&mut gnss, None);
    assert_eq!(step.rejection, Some(Rejection::NoFix));
    assert_eq!((step.request, step.delay_secs), (Msg::GnssGetLocationReq, 5));
    assert_eq!(gnss.filter.gnss_filter_cnt, 0);
    assert_eq!(feed(&mut gnss, Some(fix(1.0, 2.0, 0.0, 5.0))).rejection, Some(Rejection::Imprecise));
}

#[test]
fn stuck_fixes_are_rejected_until_the_position_changes() {
    let mut gnss = receiver_on();
    assert_eq!(feed(&mut gnss, Some(fix(1.0, 2.0, 0.0, 1.0))).rejection, None);
    assert_eq!(gnss.filter.abnormal_cnt, 0);

    assert_eq!(feed(&mut gnss, Some(fix(1.0, 2.0, 10.0, 1.0))).rejection, Some(Rejection::Stuck));
    assert_eq!(gnss.filter.abnormal_cnt, 1);
    assert_eq!(feed(&mut gnss, Some(fix(1.0, 2.0, 10.0, 1.0))).rejection, Some(Rejection::Stuck));
    assert_eq!(gnss.filter.abnormal_cnt, 2);

    let step = feed(&mut gnss, Some(fix(1.0, 2.1, 10.0, 1.0)));
    assert_eq!(step.rejection, None);
    assert_eq!(step.location, Some(FmlGnssData { id: 1, lat: micro(1.0), lon: micro(2.1) }));
    assert_eq!(gnss.filter.abnormal_cnt, 0);
}

#[test]
fn slow_fix_at_the_same_position_is_accepted() {
    let mut gnss = receiver_on();
    assert_eq!(feed(&mut gnss, Some(fix(1.0, 2.0, 0.0, 1.0))).rejection, None);
    assert_eq!(feed(&mut gnss, Some(fix(1.0, 2.0, 5.0, 1.0))).rejection, None);
    assert_eq!(feed(&mut gnss, Some(fix(1.0, 2.0, 5.01, 1.0))).rejection, Some(Rejection::Stuck));
}

#[test]
fn accepted_fix_becomes_a_location_without_loss() {
    let mut gnss = receiver_on();
    let step = feed(&mut gnss, Some(fix(1.0, 2.0, 10.0, 1.0)));
    assert_eq!(step.rejection, None);
    assert_eq!(step.location, Some(FmlGnssData { id: 1, lat: 1_000_000, lon: 2_000_000 }));
    assert_eq!(step.location, Some(FmlGnssData::new(1, micro(2.0), micro(1.0))));
    assert_eq!(step.utc_stamp, Some(1_700_000_000));
    assert!(step.publish);
    assert_eq!((step.request, step.delay_secs), (Msg::GnssGetLocationReq, 30));
    assert_eq!(fml_gnss_status_get(&gnss), FmlGnssStatus::Fix3D);

    let two_d = FmlGnssRawData { fix: 2, ..fix(1.5, 2.5, 10.0, 1.0) };
    assert_eq!(feed(&mut gnss, Some(two_d)).rejection, None);
    assert_eq!(fml_gnss_status_get(&gnss), FmlGnssStatus::Fix2D);
}

#[test]
fn rejected_fix_is_asked_for_again_after_five_seconds() {
    let mut gnss = receiver_on();
    let step = feed(&mut gnss, Some(FmlGnssRawData { fix: 0, ..fix(1.0, 2.0, 10.0, 1.0) }));
    assert_eq!(step.rejection, Some(Rejection::Implausible(-1)));
    assert_eq!(step.location, None);
    assert_eq!(step.utc_stamp, None);
    assert!(!step.publish);
    assert_eq!((step.request, step.delay_secs), (Msg::GnssGetLocationReq, 5));
    assert_eq!(fml_gnss_status_get(&gnss), FmlGnssStatus::On);
}

#[test]
fn closing_conditions() {
    let on = FmlGnssStatus::On;
    let lte = FmlNetAttachStatus::LTEService;
    assert!(!must_close(FmlAccStatus::On, lte, on));
    assert!(!must_close(FmlAccStatus::On, FmlNetAttachStatus::GSMService, FmlGnssStatus::Fix3D));
    assert!(must_close(FmlAccStatus::Off, lte, on));
    assert!(must_close(FmlAccStatus::On, FmlNetAttachStatus::InCall, on));
    assert!(must_close(FmlAccStatus::On, FmlNetAttachStatus::NoSim, on));
    assert!(must_close(FmlAccStatus::On, lte, FmlGnssStatus::NotOpen));
    assert!(must_close(FmlAccStatus::On, lte, FmlGnssStatus::Off));

    let mut gnss = receiver_on();
    let step = gnss.fml_gnss_data_filter_task(
        Some(fix(1.0, 2.0, 10.0, 1.0)),
        FmlAccStatus::Off,
        FmlNetAttachStatus::LTEService,
    );
    assert_eq!(step.rejection, None);
    assert_eq!((step.request, step.delay_secs), (Msg::GnssCloseReq, 0));
}

#[test]
fn receiver_off_rejects_every_report() {
    let mut gnss = FmlGnss::new();
    let step = feed(&mut gnss, Some(fix(1.0, 2.0, 10.0, 1.0)));
    assert_eq!(step.rejection, Some(Rejection::ReceiverOff));
    assert_eq!(step.request, Msg::GnssCloseReq);
}

#[test]
fn power_controller() {
    let mut gnss = FmlGnss::new();
    assert_eq!(gnss.fml_gnss_on_req(), Some(Msg::GnssOpenReq));
    assert_eq!(gnss.fml_gnss_off_req(), None);
    assert_eq!(gnss.fml_gnss_control_task(&Msg::GnssOpenRpy(false)), None);
    assert_eq!(gnss.status, FmlGnssStatus::Off);
    assert_eq!(gnss.fml_gnss_control_task(&Msg::ModemReady), None);
    assert_eq!(gnss.fml_gnss_control_task(&Msg::GnssOpenRpy(true)), Some(Msg::GnssGetLocationReq));
    assert_eq!(gnss.status, FmlGnssStatus::On);
    assert_eq!(gnss.fml_gnss_on_req(), None);
    assert_eq!(gnss.fml_gnss_off_req(), Some(Msg::GnssCloseReq));
    assert_eq!(gnss.fml_gnss_control_task(&Msg::ModemReady), Some(Msg::GnssOpenReq));
    assert_eq!(gnss.status, FmlGnssStatus::Off);
    gnss.fml_gnss_status_set(FmlGnssStatus::Fix3D);
    assert_eq!(gnss.fml_gnss_control_task(&Msg::GnssCloseRpy(false)), None);
    assert_eq!(gnss.status, FmlGnssStatus::Fix3D);
    assert_eq!(gnss.fml_gnss_control_task(&Msg::GnssCloseRpy(true)), None);
    assert_eq!(gnss.status, FmlGnssStatus::Off);
}
