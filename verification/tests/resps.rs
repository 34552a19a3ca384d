use tracker_core::resps::{fixed, parse_gps_loc, parse_qlts, qlts_clock, scaled, stamp, Clock};
use tracker_core::storage::FmlGnssRawData;
use tracker_core::urc::ParseError;

#[test]
fn network_time_is_read_as_utc() {
    assert_eq!(parse_qlts(b"+QLTS: \"2024/03/15,10:20:30+32,0\""), Ok(1_710_498_030));
    assert_eq!(parse_qlts(b"+QLTS: \"2024/02/29,23:59:59+00,1\"\r\n"), Ok(1_709_251_199));
    assert_eq!(
        qlts_clock(b"+QLTS: \"2024/03/15,10:20:30+32,0\""),
        Some(Clock { year: 2024, month: 3, day: 15, hour: 10, min: 20, sec: 30 })
    );
}

#[test]
fn malformed_network_time_is_no_match() {
    for text in [
        &b"+QLTS: \"2023/02/29,10:20:30+32,0\""[..],
        b"+QLTS: \"2024/13/15,10:20:30+32,0\"",
        b"+QLTS: \"2024/00/15,10:20:30+32,0\"",
        b"+QLTS: \"2024/03/32,10:20:30+32,0\"",
        b"+QLTS: \"2024/03/15,24:20:30+32,0\"",
        b"+QLTS: \"2024/03/15,10:60:30+32,0\"",
        b"+QLTS: \"2024/03/15,10:20:60+32,0\"",
        b"+QLTS: \"2024/03/15,10:20:30+32,0",
        b"+QLTS: \"2024/03/15,10:20:30+32\"",
        b"+QLTS: \"2024/03/15,10:20:30+32,256\"",
        b"+QLTS: \"2024/03/15,10:20:30+32,x\"",
        b"+QLTS: \"24/03/15,10:20:30+32,0\"",
        b"+QLTS: \"2024/3/15,10:20:30+32,0\"",
        b"+QLTS: 2024/03/15,10:20:30+32,0",
        b"+QLTS: \"2024/03/15,10:20",
        b"",
    ] {
        assert_eq!(parse_qlts(text), Err(ParseError::NoMatch), "{:?}", text);
    }
}

#[test]
fn calendar_decides_the_timestamp() {
    let noon = Clock { year: 1970, month: 1, day: 1, hour: 0, min: 0, sec: 0 };
    assert_eq!(stamp(&noon), Some(0));
    assert_eq!(stamp(&Clock { day: 2, sec: 1, ..noon }), Some(86_401));
    assert_eq!(stamp(&Clock { year: 1969, month: 12, day: 31, hour: 23, min: 59, sec: 59 }), Some(-1));
    assert_eq!(stamp(&Clock { month: 2, day: 30, ..noon }), None);
    assert_eq!(stamp(&Clock { month: 0, ..noon }), None);
    assert_eq!(stamp(&Clock { hour: 24, ..noon }), None);
}

#[test]
fn fixed_width_numbers() {
    assert_eq!(fixed(b"2024/03", 0, 4), Some(2024));
    assert_eq!(fixed(b"2024/03", 5, 2), Some(3));
    assert_eq!(fixed(b"2024/03", 4, 2), None);
    assert_eq!(fixed(b"2024/03", 6, 2), None);
    assert_eq!(fixed(b"2024/03", 0, 0), None);
    assert_eq!(fixed(b"+5", 0, 2), None);
}

#[test]
fn plain_decimals_in_fixed_point() {
    assert_eq!(scaled(b"1.0", true), Some(1_000_000));
    assert_eq!(scaled(b"2.1", true), Some(2_100_000));
    assert_eq!(scaled(b"31.2345678", true), Some(31_234_567));
    assert_eq!(scaled(b"-121.5", true), Some(-121_500_000));
    assert_eq!(scaled(b"+0.000001", true), Some(1));
    assert_eq!(scaled(b"2146.999999", true), Some(2_146_999_999));
    assert_eq!(scaled(b"2147", true), None);
    assert_eq!(scaled(b"3.5", false), Some(350));
    assert_eq!(scaled(b"3.51", false), Some(351));
    assert_eq!(scaled(b"3.519", false), Some(351));
    assert_eq!(scaled(b"12", false), Some(1_200));
    assert_eq!(scaled(b"12.", false), Some(1_200));
    assert_eq!(scaled(b"-0.0", false), Some(0));
    assert_eq!(scaled(b"21474835.99", false), Some(2_147_483_599));
    assert_eq!(scaled(b"21474836", false), None);
    for text in [&b""[..], b"-", b".5", b"1e5", b"1.2.3", b"1,2", b" 1", b"1 ", b"nan", b"--1"] {
        assert_eq!(scaled(text, false), None, "{:?}", text);
    }
}

#[test]
fn position_response_is_decoded() {
    let text = b"+QGPSLOC: 061245.00,31.2345678,121.4737,1.2,45.6,3,123.45,10.0,5.4,150324,09";
    assert_eq!(
        parse_gps_loc(text),
        Ok(FmlGnssRawData {
            latitude: 31_234_567,
            longitude: 121_473_700,
            hdop: 120,
            altitude: 4_560,
            fix: 3,
            cog: Some(12_345),
            spkm: 1_000,
            spkn: 540,
            nsat: 9,
            utc_stamp: 1_710_483_165,
        })
    );
}

#[test]
fn position_without_course_and_with_trailing_line_end() {
    let text = b"+QGPSLOC: 000000.00,-1.0,2.0,3.5,-12.3,2,,0.0,0.0,010183,12\r\n";
    assert_eq!(
        parse_gps_loc(text),
        Ok(FmlGnssRawData {
            latitude: -1_000_000,
            longitude: 2_000_000,
            hdop: 350,
            altitude: -1_230,
            fix: 2,
            cog: None,
            spkm: 0,
            spkn: 0,
            nsat: 12,
            utc_stamp: 410_227_200,
        })
    );
}

#[test]
fn malformed_position_is_no_match() {
    for text in [
        &b"+QGPSLOC: 061245.00,31.2,121.4,1.2,45.6,3,123.45,10.0,5.4,150324"[..],
        b"+QGPSLOC: 061245.00,31.2,121.4,1.2,45.6,3,123.45,10.0,5.4,150324,",
        b"+QGPSLOC: 061245.00,31.2,121.4,1.2,45.6,3,123.45,10.0,5.4,150324,x",
        b"+QGPSLOC: 061245.00,31.2,121.4,1.2,45.6,3,123.45,10.0,5.4,310224,09",
        b"+QGPSLOC: 061245.00,31.2,121.4,1.2,45.6,3,123.45,10.0,5.4,1503,09",
        b"+QGPSLOC: 061245.00,31.2,121.4,1.2,45.6,3,123.45,-10.0,5.4,150324,09",
        b"+QGPSLOC: 061245.00,31.2,121.4,-1.2,45.6,3,123.45,10.0,5.4,150324,09",
        b"+QGPSLOC: 061245.00,31.2,121.4,1.2,45.6,3,abc,10.0,5.4,150324,09",
        b"+QGPSLOC: 061245.00,31.2,121.4,1.2,45.6,256,123.45,10.0,5.4,150324,09",
        b"+QGPSLOC: 061245.00,3113.2N,121.4,1.2,45.6,3,123.45,10.0,5.4,150324,09",
        b"+QGPSLOC: 246045.00,31.2,121.4,1.2,45.6,3,123.45,10.0,5.4,150324,09",
        b"+QGPSLOC: 061260.00,31.2,121.4,1.2,45.6,3,123.45,10.0,5.4,150324,09",
        b"+QGPSLOC: 0612,31.2,121.4,1.2,45.6,3,123.45,10.0,5.4,150324,09",
        b"+QGPSLOC:061245.00,31.2,121.4,1.2,45.6,3,123.45,10.0,5.4,150324,09",
        b"+QGPSLOC: ",
        b"",
    ] {
        assert_eq!(parse_gps_loc(text), Err(ParseError::NoMatch), "{:?}", text);
    }
}
