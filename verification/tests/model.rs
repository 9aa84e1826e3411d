use av_meta::params::CodecParams;
use av_meta::payload::OpaquePayload;
use av_meta::rational::Rational64;
use av_meta::stream::{Stream, StreamGroup};
use av_meta::timeinfo::TimeInfo;

#[test]
fn default_time_info_all_absent() {
    let t = TimeInfo::default();
    assert!(t.pts.is_none());
    assert!(t.dts.is_none());
    assert!(t.duration.is_none());
    assert!(t.timebase.is_none());
    assert!(t.user_private.is_none());
}

#[test]
fn from_params_canonical_defaults() {
    let params = CodecParams::new(Some(vec![1u8, 2, 3]));
    let tb = Rational64::new(1, 75);
    let s = Stream::from_params(&params, tb);
    assert_eq!(s.id, -1);
    assert_eq!(s.index, 0);
    assert!(s.start.is_none());
    assert!(s.duration.is_none());
    assert!(s.user_private.is_none());
    assert_eq!(s.timebase, tb);
    assert_eq!(s.params.extradata, Some(vec![1u8, 2, 3]));
    // The copy is independently owned: the source value is intact and unshared.
    assert_eq!(params.extradata, Some(vec![1u8, 2, 3]));
}

#[test]
fn from_params_without_extradata() {
    let params = CodecParams::new(None);
    let s = Stream::from_params(&params, Rational64::new(1, 90000));
    assert_eq!(s.id, -1);
    assert_eq!(s.index, 0);
    assert!(s.params.extradata.is_none());
}

#[test]
fn get_extradata_returns_stored_bytes() {
    let params = CodecParams::new(Some(vec![0u8, 255, 7]));
    let s = Stream::from_params(&params, Rational64::new(1, 48000));
    assert_eq!(s.get_extradata(), Some(&[0u8, 255, 7][..]));
}

#[test]
fn get_extradata_absent_when_none_set() {
    let params = CodecParams::new(None);
    let s = Stream::from_params(&params, Rational64::new(1, 48000));
    assert!(s.get_extradata().is_none());
}

#[test]
fn get_extradata_empty_bytes_are_present() {
    let params = CodecParams::new(Some(Vec::new()));
    let s = Stream::from_params(&params, Rational64::new(1, 25));
    assert_eq!(s.get_extradata(), Some(&[][..]));
}

#[test]
fn stream_group_reports_span_and_count() {
    let params = CodecParams::new(None);
    let tb = Rational64::new(1, 75);
    let streams = vec![
        Stream::from_params(&params, tb),
        Stream::from_params(&params, tb),
        Stream::from_params(&params, tb),
    ];
    let group = StreamGroup { id: 0, start: 100, end: 500, streams: &streams };
    assert_eq!(group.end - group.start, 400);
    assert_eq!(group.streams.len(), 3);
    assert_eq!(group.span(), 400);
    assert_eq!(group.stream_count(), 3);
}

#[test]
fn duplicate_ids_are_not_rejected_here() {
    // Uniqueness of non-negative ids within one source is an obligation on
    // the consuming container-management layer; this model states the
    // invariant but performs no check, so building two descriptors with the
    // same id succeeds.
    let params = CodecParams::new(None);
    let tb = Rational64::new(1, 75);
    let mut a = Stream::from_params(&params, tb);
    let mut b = Stream::from_params(&params, tb);
    a.id = 7;
    b.id = 7;
    assert_eq!(a.id, 7);
    assert_eq!(b.id, 7);
}

#[test]
fn clone_copies_non_opaque_fields() {
    let params = CodecParams::new(Some(vec![9u8, 8]));
    let mut s = Stream::from_params(&params, Rational64::new(1001, 30000));
    s.id = 2;
    s.index = 1;
    s.start = Some(10);
    s.duration = Some(20);
    let c = s.clone();
    assert_eq!(c.id, 2);
    assert_eq!(c.index, 1);
    assert_eq!(c.start, Some(10));
    assert_eq!(c.duration, Some(20));
    assert_eq!(c.timebase, Rational64::new(1001, 30000));
    assert_eq!(c.params.extradata, Some(vec![9u8, 8]));
}

#[test]
fn clone_duplicates_payload_handle() {
    let mut t = TimeInfo::default();
    t.pts = Some(42);
    t.user_private = Some(OpaquePayload::from_value(string_payload()));
    let c = t.clone();
    assert_eq!(c.pts, Some(42));
    assert!(c.user_private.is_some());
    assert!(t.user_private.is_some());
}

fn string_payload() -> String {
    "auxiliary".to_owned()
}
