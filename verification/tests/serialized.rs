use av_meta::params::CodecParams;
use av_meta::rational::Rational64;
use av_meta::ser::{rational_from_ser, rational_to_ser, SerValue};
use av_meta::stream::{Stream, StreamGroup};
use av_meta::timeinfo::TimeInfo;

#[test]
fn rational_serializes_as_two_element_sequence() {
    let r = Rational64::new(1, 75);
    let v = rational_to_ser(&r);
    assert_eq!(v, SerValue::List(vec![SerValue::Int(1), SerValue::Int(75)]));
}

#[test]
fn rational_round_trip() {
    let r = Rational64::new(-7, 90000);
    let v = rational_to_ser(&r);
    assert_eq!(rational_from_ser(&v), Some(r));
}

#[test]
fn rational_from_wrong_shapes_is_rejected() {
    assert!(rational_from_ser(&SerValue::Null).is_none());
    assert!(rational_from_ser(&SerValue::List(vec![SerValue::Int(1)])).is_none());
    assert!(rational_from_ser(&SerValue::List(vec![
        SerValue::Int(1),
        SerValue::UInt(75),
    ]))
    .is_none());
    assert!(rational_from_ser(&SerValue::List(vec![
        SerValue::Int(1),
        SerValue::Int(2),
        SerValue::Int(3),
    ]))
    .is_none());
}

#[test]
fn time_info_round_trip_restores_non_opaque_fields() {
    let mut t = TimeInfo::default();
    t.pts = Some(-3);
    t.dts = Some(-5);
    t.duration = Some(40);
    t.timebase = Some(Rational64::new(1, 75));
    let v = t.to_ser();
    let u = TimeInfo::from_ser(&v).expect("well-formed record must parse");
    assert_eq!(u.pts, Some(-3));
    assert_eq!(u.dts, Some(-5));
    assert_eq!(u.duration, Some(40));
    assert_eq!(u.timebase, Some(Rational64::new(1, 75)));
    assert!(u.user_private.is_none());
}

#[test]
fn time_info_round_trip_with_all_fields_absent() {
    let t = TimeInfo::default();
    let u = TimeInfo::from_ser(&t.to_ser()).expect("well-formed record must parse");
    assert!(u.pts.is_none());
    assert!(u.dts.is_none());
    assert!(u.duration.is_none());
    assert!(u.timebase.is_none());
    assert!(u.user_private.is_none());
}

#[test]
fn time_info_serialized_shape_uses_snake_case_keys() {
    let t = TimeInfo::default();
    let v = t.to_ser();
    let expected = SerValue::Record(vec![
        ("pts".to_owned(), SerValue::Null),
        ("dts".to_owned(), SerValue::Null),
        ("duration".to_owned(), SerValue::Null),
        ("timebase".to_owned(), SerValue::Null),
    ]);
    assert_eq!(v, expected);
}

#[test]
fn time_info_from_wrong_key_is_rejected() {
    let v = SerValue::Record(vec![
        ("pts".to_owned(), SerValue::Null),
        ("dts".to_owned(), SerValue::Null),
        ("length".to_owned(), SerValue::Null),
        ("timebase".to_owned(), SerValue::Null),
    ]);
    assert!(TimeInfo::from_ser(&v).is_none());
}

#[test]
fn stream_round_trip_restores_non_opaque_fields() {
    let params = CodecParams::new(Some(vec![0u8, 127, 255]));
    let mut s = Stream::from_params(&params, Rational64::new(1001, 30000));
    s.id = 3;
    s.index = 2;
    s.start = Some(100);
    s.duration = Some(12345);
    let v = s.to_ser();
    let u = Stream::from_ser(&v).expect("well-formed record must parse");
    assert_eq!(u.id, 3);
    assert_eq!(u.index, 2);
    assert_eq!(u.params.extradata, Some(vec![0u8, 127, 255]));
    assert_eq!(u.start, Some(100));
    assert_eq!(u.duration, Some(12345));
    assert_eq!(u.timebase, Rational64::new(1001, 30000));
    assert!(u.user_private.is_none());
}

#[test]
fn stream_round_trip_with_defaults() {
    let params = CodecParams::new(None);
    let s = Stream::from_params(&params, Rational64::new(1, 75));
    let u = Stream::from_ser(&s.to_ser()).expect("well-formed record must parse");
    assert_eq!(u.id, -1);
    assert_eq!(u.index, 0);
    assert!(u.params.extradata.is_none());
    assert!(u.start.is_none());
    assert!(u.duration.is_none());
    assert_eq!(u.timebase, Rational64::new(1, 75));
}

#[test]
fn stream_without_timebase_is_rejected() {
    let params = CodecParams::new(None);
    let s = Stream::from_params(&params, Rational64::new(1, 75));
    let v = s.to_ser();
    if let SerValue::Record(mut entries) = v {
        // The timebase is mandatory: null in its place must not parse.
        entries[5].1 = SerValue::Null;
        assert!(Stream::from_ser(&SerValue::Record(entries)).is_none());
    } else {
        panic!("a stream serializes as a record");
    }
}

#[test]
fn extradata_byte_out_of_range_is_rejected() {
    let params = CodecParams::new(None);
    let s = Stream::from_params(&params, Rational64::new(1, 75));
    let v = s.to_ser();
    if let SerValue::Record(mut entries) = v {
        entries[2].1 = SerValue::Record(vec![(
            "extradata".to_owned(),
            SerValue::List(vec![SerValue::UInt(256)]),
        )]);
        assert!(Stream::from_ser(&SerValue::Record(entries)).is_none());
    } else {
        panic!("a stream serializes as a record");
    }
}

#[test]
fn empty_extradata_round_trips_as_present() {
    let params = CodecParams::new(Some(Vec::new()));
    let s = Stream::from_params(&params, Rational64::new(1, 75));
    let u = Stream::from_ser(&s.to_ser()).expect("well-formed record must parse");
    assert_eq!(u.params.extradata, Some(Vec::new()));
}

#[test]
fn group_serializes_bounds_and_streams() {
    let params = CodecParams::new(None);
    let tb = Rational64::new(1, 75);
    let streams = vec![Stream::from_params(&params, tb), Stream::from_params(&params, tb)];
    let group = StreamGroup { id: 4, start: 100, end: 500, streams: &streams };
    let v = group.to_ser();
    if let SerValue::Record(entries) = v {
        assert_eq!(entries.len(), 4);
        assert_eq!(entries[0], ("id".to_owned(), SerValue::UInt(4)));
        assert_eq!(entries[1], ("start".to_owned(), SerValue::UInt(100)));
        assert_eq!(entries[2], ("end".to_owned(), SerValue::UInt(500)));
        assert_eq!(entries[3].0, "streams".to_owned());
        if let SerValue::List(items) = &entries[3].1 {
            assert_eq!(items.len(), 2);
            assert_eq!(items[0], streams[0].to_ser());
        } else {
            panic!("the streams entry is a list");
        }
    } else {
        panic!("a group serializes as a record");
    }
}
