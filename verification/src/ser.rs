use vstd::prelude::*;

use crate::params::CodecParams;
use crate::rational::Rational64;
use crate::stream::{Stream, StreamGroup, StreamGroupModel, StreamModel};
use crate::timeinfo::TimeInfo;

verus! {

/// One node of the serialized representation.
///
/// The serialized form of every value of this model is a tree of these
/// nodes: optional fields become [`SerValue::Null`] when absent, a rational
/// timebase becomes the two-element list `[numerator, denominator]`,
/// extradata bytes become a list of unsigned numbers, and each struct
/// becomes a record of `(field name, value)` entries in declaration order,
/// with names in lower-case-with-underscores form. Opaque payload fields
/// are never part of the tree. A byte-level encoder (JSON or similar) can
/// render this tree without knowing the model's types.
#[derive(Debug, PartialEq, Eq)]
pub enum SerValue {
    /// An absent optional field.
    Null,
    /// A signed number.
    Int(i64),
    /// An unsigned number.
    UInt(u64),
    /// A sequence of values.
    List(Vec<SerValue>),
    /// Named fields, in order.
    Record(Vec<(String, SerValue)>),
}

/// The mathematical mirror of [`SerValue`]: the same tree over `Seq`
/// instead of `Vec` and character sequences instead of `String`. Contracts
/// about serialization speak of this type.
#[verifier::ext_equal]
pub enum SerModel {
    /// An absent optional field.
    Null,
    /// A signed number.
    Int(i64),
    /// An unsigned number.
    UInt(u64),
    /// A sequence of values.
    List(Seq<SerModel>),
    /// Named fields, in order.
    Record(Seq<(Seq<char>, SerModel)>),
}

impl SerValue {
    /// The tree as a mathematical value.
    pub open spec fn model(self) -> SerModel
        decreases self,
    {
        match self {
            SerValue::Null => SerModel::Null,
            SerValue::Int(i) => SerModel::Int(i),
            SerValue::UInt(u) => SerModel::UInt(u),
            SerValue::List(items) => SerModel::List(
                Seq::new(
                    items@.len(),
                    |i: int|
                        if 0 <= i < items@.len() {
                            items@[i].model()
                        } else {
                            SerModel::Null
                        },
                ),
            ),
            SerValue::Record(entries) => SerModel::Record(
                Seq::new(
                    entries@.len(),
                    |i: int|
                        if 0 <= i < entries@.len() {
                            (entries@[i].0@, entries@[i].1.model())
                        } else {
                            (Seq::empty(), SerModel::Null)
                        },
                ),
            ),
        }
    }
}

/// Serialized form of an optional signed number: the number, or null.
pub open spec fn ser_opt_int(o: Option<i64>) -> SerModel {
    match o {
        Option::Some(i) => SerModel::Int(i),
        Option::None => SerModel::Null,
    }
}

/// Reads back an optional signed number; any other shape is rejected.
pub open spec fn parse_opt_int(m: SerModel) -> Option<Option<i64>> {
    match m {
        SerModel::Null => Option::Some(Option::None),
        SerModel::Int(i) => Option::Some(Option::Some(i)),
        _ => Option::None,
    }
}

/// Serialized form of an optional unsigned number: the number, or null.
pub open spec fn ser_opt_uint(o: Option<u64>) -> SerModel {
    match o {
        Option::Some(u) => SerModel::UInt(u),
        Option::None => SerModel::Null,
    }
}

/// Reads back an optional unsigned number; any other shape is rejected.
pub open spec fn parse_opt_uint(m: SerModel) -> Option<Option<u64>> {
    match m {
        SerModel::Null => Option::Some(Option::None),
        SerModel::UInt(u) => Option::Some(Option::Some(u)),
        _ => Option::None,
    }
}

/// Serialized form of a rational timebase: the two-element sequence
/// `[numerator, denominator]`.
pub open spec fn ser_rational(r: Rational64) -> SerModel {
    SerModel::List(seq![SerModel::Int(r.num), SerModel::Int(r.den)])
}

/// Reads back a rational timebase from a two-element sequence of signed
/// numbers; any other shape is rejected. The denominator is stored as it
/// stands: this model validates no invariant.
pub open spec fn parse_rational(m: SerModel) -> Option<Rational64> {
    match m {
        SerModel::List(s) => if s.len() == 2 {
            match (s[0], s[1]) {
                (SerModel::Int(n), SerModel::Int(d)) => Option::Some(
                    Rational64 { num: n, den: d },
                ),
                _ => Option::None,
            }
        } else {
            Option::None
        },
        _ => Option::None,
    }
}

/// Serialized form of an optional rational timebase.
pub open spec fn ser_opt_rational(o: Option<Rational64>) -> SerModel {
    match o {
        Option::Some(r) => ser_rational(r),
        Option::None => SerModel::Null,
    }
}

/// Reads back an optional rational timebase.
pub open spec fn parse_opt_rational(m: SerModel) -> Option<Option<Rational64>> {
    match m {
        SerModel::Null => Option::Some(Option::None),
        _ => match parse_rational(m) {
            Option::Some(r) => Option::Some(Option::Some(r)),
            Option::None => Option::None,
        },
    }
}

/// Serializes a rational timebase: yields the two-element sequence
/// `[numerator, denominator]`.
pub fn rational_to_ser(r: &Rational64) -> (v: SerValue)
    ensures
        v.model() == ser_rational(*r),
{
    let mut items: Vec<SerValue> = Vec::new();
    items.push(SerValue::Int(r.num));
    items.push(SerValue::Int(r.den));
    let v = SerValue::List(items);
    proof {
        if let SerModel::List(s) = v.model() {
            assert(s[0] == items@[0].model());
            assert(s[1] == items@[1].model());
            assert(s =~= seq![SerModel::Int(r.num), SerModel::Int(r.den)]);
        }
        assert(v.model() =~= ser_rational(*r));
    }
    v
}

/// Deserializes a rational timebase; returns the pair exactly when the
/// input is a two-element sequence of signed numbers.
pub fn rational_from_ser(v: &SerValue) -> (r: Option<Rational64>)
    ensures
        r == parse_rational(v.model()),
{
    match v {
        SerValue::List(items) => {
            proof {
                if let SerModel::List(s) = v.model() {
                    assert(s.len() == items@.len());
                    if items@.len() == 2 {
                        assert(s[0] == items@[0].model());
                        assert(s[1] == items@[1].model());
                    }
                }
            }
            if items.len() == 2 {
                match (&items[0], &items[1]) {
                    (SerValue::Int(n), SerValue::Int(d)) => Option::Some(
                        Rational64 { num: *n, den: *d },
                    ),
                    _ => Option::None,
                }
            } else {
                Option::None
            }
        },
        _ => Option::None,
    }
}

/// Round trip: deserializing a serialized rational timebase restores the
/// pair exactly, whatever the denominator.
pub proof fn lemma_rational_round_trip(r: Rational64)
    ensures
        parse_rational(ser_rational(r)) == Option::Some(r),
{
}

/// Serializes an optional signed number.
fn opt_int_to_ser(o: &Option<i64>) -> (v: SerValue)
    ensures
        v.model() == ser_opt_int(*o),
{
    match o {
        Option::Some(i) => SerValue::Int(*i),
        Option::None => SerValue::Null,
    }
}

/// Deserializes an optional signed number.
fn opt_int_from_ser(v: &SerValue) -> (r: Option<Option<i64>>)
    ensures
        r == parse_opt_int(v.model()),
{
    match v {
        SerValue::Null => Option::Some(Option::None),
        SerValue::Int(i) => Option::Some(Option::Some(*i)),
        _ => Option::None,
    }
}

/// Serializes an optional unsigned number.
fn opt_uint_to_ser(o: &Option<u64>) -> (v: SerValue)
    ensures
        v.model() == ser_opt_uint(*o),
{
    match o {
        Option::Some(u) => SerValue::UInt(*u),
        Option::None => SerValue::Null,
    }
}

/// Deserializes an optional unsigned number.
fn opt_uint_from_ser(v: &SerValue) -> (r: Option<Option<u64>>)
    ensures
        r == parse_opt_uint(v.model()),
{
    match v {
        SerValue::Null => Option::Some(Option::None),
        SerValue::UInt(u) => Option::Some(Option::Some(*u)),
        _ => Option::None,
    }
}

/// Serializes an optional rational timebase.
fn opt_rational_to_ser(o: &Option<Rational64>) -> (v: SerValue)
    ensures
        v.model() == ser_opt_rational(*o),
{
    match o {
        Option::Some(r) => rational_to_ser(r),
        Option::None => SerValue::Null,
    }
}

/// Deserializes an optional rational timebase.
fn opt_rational_from_ser(v: &SerValue) -> (r: Option<Option<Rational64>>)
    ensures
        r == parse_opt_rational(v.model()),
{
    match v {
        SerValue::Null => Option::Some(Option::None),
        _ => match rational_from_ser(v) {
            Option::Some(r) => Option::Some(Option::Some(r)),
            Option::None => Option::None,
        },
    }
}

/// True when the key equals the given field name.
fn key_matches(k: &String, name: &str) -> (r: bool)
    ensures
        r == (k@ == name@),
{
    let s: String = name.to_owned();
    *k == s
}

/// Serialized form of a timing record: a record of the four non-opaque
/// fields, in declaration order. The opaque payload is never emitted; two
/// records that differ only in their payload serialize alike.
pub open spec fn ser_time_info(t: TimeInfo) -> SerModel {
    SerModel::Record(
        seq![
            ("pts"@, ser_opt_int(t.pts)),
            ("dts"@, ser_opt_int(t.dts)),
            ("duration"@, ser_opt_uint(t.duration)),
            ("timebase"@, ser_opt_rational(t.timebase)),
        ],
    )
}

/// Reads back a timing record; exactly the records with the four expected
/// keys in order and well-shaped values are accepted. The payload field of
/// the result is absent: it is never part of the serialized form.
pub open spec fn parse_time_info(m: SerModel) -> Option<TimeInfo> {
    match m {
        SerModel::Record(es) => if es.len() == 4 && es[0].0 == "pts"@ && es[1].0 == "dts"@
            && es[2].0 == "duration"@ && es[3].0 == "timebase"@ {
            match (parse_opt_int(es[0].1), parse_opt_int(es[1].1), parse_opt_uint(es[2].1), parse_opt_rational(es[3].1)) {
                (
                    Option::Some(pts),
                    Option::Some(dts),
                    Option::Some(duration),
                    Option::Some(timebase),
                ) => Option::Some(
                    TimeInfo { pts, dts, duration, timebase, user_private: Option::None },
                ),
                _ => Option::None,
            }
        } else {
            Option::None
        },
        _ => Option::None,
    }
}

impl TimeInfo {
    /// Serializes the record: yields exactly [`ser_time_info`] of it.
    pub fn to_ser(&self) -> (v: SerValue)
        ensures
            v.model() == ser_time_info(*self),
    {
        let mut entries: Vec<(String, SerValue)> = Vec::new();
        entries.push(("pts".to_owned(), opt_int_to_ser(&self.pts)));
        entries.push(("dts".to_owned(), opt_int_to_ser(&self.dts)));
        entries.push(("duration".to_owned(), opt_uint_to_ser(&self.duration)));
        entries.push(("timebase".to_owned(), opt_rational_to_ser(&self.timebase)));
        let v = SerValue::Record(entries);
        proof {
            if let SerModel::Record(s) = v.model() {
                assert(s[0] == (entries@[0].0@, entries@[0].1.model()));
                assert(s[1] == (entries@[1].0@, entries@[1].1.model()));
                assert(s[2] == (entries@[2].0@, entries@[2].1.model()));
                assert(s[3] == (entries@[3].0@, entries@[3].1.model()));
                assert(s =~= ser_time_info(*self)->Record_0);
            }
            assert(v.model() =~= ser_time_info(*self));
        }
        v
    }

    /// Deserializes a record: yields exactly [`parse_time_info`] of the
    /// input's content.
    pub fn from_ser(v: &SerValue) -> (r: Option<TimeInfo>)
        ensures
            r == parse_time_info(v.model()),
    {
        match v {
            SerValue::Record(entries) => {
                proof {
                    if let SerModel::Record(s) = v.model() {
                        assert(s.len() == entries@.len());
                        if entries@.len() == 4 {
                            assert(s[0] == (entries@[0].0@, entries@[0].1.model()));
                            assert(s[1] == (entries@[1].0@, entries@[1].1.model()));
                            assert(s[2] == (entries@[2].0@, entries@[2].1.model()));
                            assert(s[3] == (entries@[3].0@, entries@[3].1.model()));
                        }
                    }
                }
                if entries.len() != 4 {
                    return Option::None;
                }
                if !key_matches(&entries[0].0, "pts") {
                    return Option::None;
                }
                if !key_matches(&entries[1].0, "dts") {
                    return Option::None;
                }
                if !key_matches(&entries[2].0, "duration") {
                    return Option::None;
                }
                if !key_matches(&entries[3].0, "timebase") {
                    return Option::None;
                }
                let pts = match opt_int_from_ser(&entries[0].1) {
                    Option::Some(x) => x,
                    Option::None => return Option::None,
                };
                let dts = match opt_int_from_ser(&entries[1].1) {
                    Option::Some(x) => x,
                    Option::None => return Option::None,
                };
                let duration = match opt_uint_from_ser(&entries[2].1) {
                    Option::Some(x) => x,
                    Option::None => return Option::None,
                };
                let timebase = match opt_rational_from_ser(&entries[3].1) {
                    Option::Some(x) => x,
                    Option::None => return Option::None,
                };
                Option::Some(TimeInfo { pts, dts, duration, timebase, user_private: Option::None })
            },
            _ => Option::None,
        }
    }
}

/// Round trip: for any timing record, deserializing its serialized form
/// succeeds and restores every non-opaque field; the payload of the result
/// is absent, since it is never serialized.
pub proof fn lemma_time_info_round_trip(t: TimeInfo)
    ensures
        parse_time_info(ser_time_info(t)) matches Option::Some(u) && u.eq_non_opaque(t)
            && u.user_private is None,
{
}

/// Serialized form of extradata bytes: each byte as an unsigned number, in
/// order.
pub open spec fn ser_bytes(b: Seq<u8>) -> SerModel {
    SerModel::List(Seq::new(b.len(), |i: int| SerModel::UInt(b[i] as u64)))
}

/// The node is an unsigned number that fits a byte.
pub open spec fn byte_ok(m: SerModel) -> bool {
    m matches SerModel::UInt(u) && u <= 255
}

/// Every element of the sequence is an unsigned number that fits a byte.
pub open spec fn bytes_shape_ok(s: Seq<SerModel>) -> bool {
    forall|i: int| 0 <= i < s.len() ==> #[trigger] byte_ok(s[i])
}

/// The unsigned number a node carries; zero for any other shape.
pub open spec fn uint_val(m: SerModel) -> u64 {
    match m {
        SerModel::UInt(u) => u,
        _ => 0,
    }
}

/// Reads back extradata bytes; exactly the sequences of unsigned numbers
/// that fit a byte are accepted.
pub open spec fn parse_bytes(m: SerModel) -> Option<Seq<u8>> {
    match m {
        SerModel::List(s) => if bytes_shape_ok(s) {
            Option::Some(Seq::new(s.len(), |i: int| uint_val(s[i]) as u8))
        } else {
            Option::None
        },
        _ => Option::None,
    }
}

/// Serializes extradata bytes.
fn bytes_to_ser(b: &Vec<u8>) -> (v: SerValue)
    ensures
        v.model() == ser_bytes(b@),
{
    let mut items: Vec<SerValue> = Vec::new();
    let mut i: usize = 0;
    while i < b.len()
        invariant
            i <= b@.len(),
            items@.len() == i,
            forall|j: int| 0 <= j < i ==> items@[j] == SerValue::UInt(b@[j] as u64),
        decreases b@.len() - i,
    {
        items.push(SerValue::UInt(b[i] as u64));
        i = i + 1;
    }
    let v = SerValue::List(items);
    proof {
        if let SerModel::List(s) = v.model() {
            assert forall|j: int| 0 <= j < s.len() implies s[j] == SerModel::UInt(
                b@[j] as u64,
            ) by {
                assert(s[j] == items@[j].model());
            }
            assert(s =~= ser_bytes(b@)->List_0);
        }
        assert(v.model() =~= ser_bytes(b@));
    }
    v
}

/// Deserializes extradata bytes.
fn bytes_from_ser(v: &SerValue) -> (r: Option<Vec<u8>>)
    ensures
        match r {
            Option::Some(b) => parse_bytes(v.model()) == Option::Some(b@),
            Option::None => parse_bytes(v.model()) is None,
        },
{
    match v {
        SerValue::List(items) => {
            let mut out: Vec<u8> = Vec::new();
            let mut i: usize = 0;
            while i < items.len()
                invariant
                    i <= items@.len(),
                    out@.len() == i,
                    v == SerValue::List(*items),
                    forall|j: int|
                        0 <= j < i ==> (#[trigger] items@[j] matches SerValue::UInt(u) && u <= 255
                            && out@[j] == u as u8),
                decreases items@.len() - i,
            {
                match &items[i] {
                    SerValue::UInt(u) => {
                        if *u <= 255 {
                            out.push(*u as u8);
                        } else {
                            proof {
                                reject_bytes_at(v.model(), items@, i as int);
                            }
                            return Option::None;
                        }
                    },
                    _ => {
                        proof {
                            reject_bytes_at(v.model(), items@, i as int);
                        }
                        return Option::None;
                    },
                }
                i = i + 1;
            }
            proof {
                if let SerModel::List(s) = v.model() {
                    assert forall|j: int| 0 <= j < s.len() implies #[trigger] byte_ok(s[j]) by {
                        assert(s[j] == items@[j].model());
                        assert(items@[j] matches SerValue::UInt(u) && u <= 255);
                    }
                    assert(bytes_shape_ok(s));
                    assert forall|j: int| 0 <= j < s.len() implies out@[j] == uint_val(
                        s[j],
                    ) as u8 by {
                        assert(s[j] == items@[j].model());
                    }
                    assert(out@ =~= Seq::new(s.len(), |i: int| uint_val(s[i]) as u8));
                }
            }
            Option::Some(out)
        },
        _ => Option::None,
    }
}

/// The element at `i` does not fit a byte, so the whole list is rejected.
proof fn reject_bytes_at(m: SerModel, items: Seq<SerValue>, i: int)
    requires
        m matches SerModel::List(s) && s.len() == items.len() && s[i] == items[i].model(),
        0 <= i < items.len(),
        !byte_ok(items[i].model()),
    ensures
        parse_bytes(m) is None,
{
    if let SerModel::List(s) = m {
        assert(!byte_ok(s[i]));
        assert(!bytes_shape_ok(s));
    }
}

/// Serialized form of codec parameters: a one-entry record holding the
/// extradata bytes, or null when none were set.
pub open spec fn ser_params(e: Option<Seq<u8>>) -> SerModel {
    SerModel::Record(
        seq![
            (
                "extradata"@,
                match e {
                    Option::Some(b) => ser_bytes(b),
                    Option::None => SerModel::Null,
                },
            ),
        ],
    )
}

/// Reads back codec parameters; exactly the one-entry records under the
/// expected key with a null or byte-list value are accepted.
pub open spec fn parse_params(m: SerModel) -> Option<Option<Seq<u8>>> {
    match m {
        SerModel::Record(es) => if es.len() == 1 && es[0].0 == "extradata"@ {
            match es[0].1 {
                SerModel::Null => Option::Some(Option::None),
                _ => match parse_bytes(es[0].1) {
                    Option::Some(b) => Option::Some(Option::Some(b)),
                    Option::None => Option::None,
                },
            }
        } else {
            Option::None
        },
        _ => Option::None,
    }
}

impl CodecParams {
    /// Serializes the parameters: yields exactly [`ser_params`] of their
    /// extradata.
    pub fn to_ser(&self) -> (v: SerValue)
        ensures
            v.model() == ser_params(self.extradata_model()),
    {
        let inner = match &self.extradata {
            Option::Some(b) => bytes_to_ser(b),
            Option::None => SerValue::Null,
        };
        let mut entries: Vec<(String, SerValue)> = Vec::new();
        entries.push(("extradata".to_owned(), inner));
        let v = SerValue::Record(entries);
        proof {
            if let SerModel::Record(s) = v.model() {
                assert(s[0] == (entries@[0].0@, entries@[0].1.model()));
                assert(s =~= ser_params(self.extradata_model())->Record_0);
            }
            assert(v.model() =~= ser_params(self.extradata_model()));
        }
        v
    }

    /// Deserializes parameters: accepts exactly what [`parse_params`]
    /// accepts, and returns parameters carrying those bytes.
    pub fn from_ser(v: &SerValue) -> (r: Option<CodecParams>)
        ensures
            match r {
                Option::Some(p) => parse_params(v.model()) == Option::Some(p.extradata_model()),
                Option::None => parse_params(v.model()) is None,
            },
    {
        match v {
            SerValue::Record(entries) => {
                proof {
                    if let SerModel::Record(s) = v.model() {
                        assert(s.len() == entries@.len());
                        if entries@.len() == 1 {
                            assert(s[0] == (entries@[0].0@, entries@[0].1.model()));
                        }
                    }
                }
                if entries.len() != 1 {
                    return Option::None;
                }
                if !key_matches(&entries[0].0, "extradata") {
                    return Option::None;
                }
                match &entries[0].1 {
                    SerValue::Null => Option::Some(CodecParams { extradata: Option::None }),
                    inner => match bytes_from_ser(inner) {
                        Option::Some(b) => Option::Some(
                            CodecParams { extradata: Option::Some(b) },
                        ),
                        Option::None => Option::None,
                    },
                }
            },
            _ => Option::None,
        }
    }
}

/// Round trip for codec parameters: serialized extradata reads back as the
/// same byte sequence, present or absent.
proof fn lemma_params_round_trip(e: Option<Seq<u8>>)
    ensures
        parse_params(ser_params(e)) == Option::Some(e),
{
    match e {
        Option::Some(b) => {
            if let SerModel::List(s) = ser_bytes(b) {
                assert(bytes_shape_ok(s));
                assert(Seq::new(s.len(), |i: int| uint_val(s[i]) as u8) =~= b);
            }
        },
        Option::None => {},
    }
}

/// Reads back a track identifier; exactly the signed numbers that fit the
/// identifier type are accepted.
pub open spec fn parse_id(m: SerModel) -> Option<isize> {
    match m {
        SerModel::Int(i) => if isize::MIN as int <= i as int <= isize::MAX as int {
            Option::Some(i as isize)
        } else {
            Option::None
        },
        _ => Option::None,
    }
}

/// Reads back a stream position; exactly the unsigned numbers that fit the
/// position type are accepted.
pub open spec fn parse_index(m: SerModel) -> Option<usize> {
    match m {
        SerModel::UInt(u) => if u as int <= usize::MAX as int {
            Option::Some(u as usize)
        } else {
            Option::None
        },
        _ => Option::None,
    }
}

/// Serialized form of a stream descriptor: a record of the six non-opaque
/// fields, in declaration order. The opaque payload is never emitted.
pub open spec fn ser_stream(m: StreamModel) -> SerModel {
    SerModel::Record(
        seq![
            ("id"@, SerModel::Int(m.id as i64)),
            ("index"@, SerModel::UInt(m.index as u64)),
            ("params"@, ser_params(m.extradata)),
            ("start"@, ser_opt_uint(m.start)),
            ("duration"@, ser_opt_uint(m.duration)),
            ("timebase"@, ser_rational(m.timebase)),
        ],
    )
}

/// Reads back a stream descriptor; exactly the records with the six
/// expected keys in order and well-shaped values are accepted. The
/// timebase is mandatory: a null in its place is rejected.
pub open spec fn parse_stream(m: SerModel) -> Option<StreamModel> {
    match m {
        SerModel::Record(es) => if es.len() == 6 && es[0].0 == "id"@ && es[1].0 == "index"@
            && es[2].0 == "params"@ && es[3].0 == "start"@ && es[4].0 == "duration"@
            && es[5].0 == "timebase"@ {
            match (
                parse_id(es[0].1),
                parse_index(es[1].1),
                parse_params(es[2].1),
                parse_opt_uint(es[3].1),
                parse_opt_uint(es[4].1),
                parse_rational(es[5].1),
            ) {
                (
                    Option::Some(id),
                    Option::Some(index),
                    Option::Some(extradata),
                    Option::Some(start),
                    Option::Some(duration),
                    Option::Some(timebase),
                ) => Option::Some(
                    StreamModel { id, index, extradata, start, duration, timebase },
                ),
                _ => Option::None,
            }
        } else {
            Option::None
        },
        _ => Option::None,
    }
}

impl Stream {
    /// Serializes the descriptor: yields exactly [`ser_stream`] of its
    /// non-opaque content.
    pub fn to_ser(&self) -> (v: SerValue)
        ensures
            v.model() == ser_stream(self.model()),
    {
        let mut entries: Vec<(String, SerValue)> = Vec::new();
        entries.push(("id".to_owned(), SerValue::Int(self.id as i64)));
        entries.push(("index".to_owned(), SerValue::UInt(self.index as u64)));
        entries.push(("params".to_owned(), self.params.to_ser()));
        entries.push(("start".to_owned(), opt_uint_to_ser(&self.start)));
        entries.push(("duration".to_owned(), opt_uint_to_ser(&self.duration)));
        entries.push(("timebase".to_owned(), rational_to_ser(&self.timebase)));
        let v = SerValue::Record(entries);
        proof {
            if let SerModel::Record(s) = v.model() {
                assert(s[0] == (entries@[0].0@, entries@[0].1.model()));
                assert(s[1] == (entries@[1].0@, entries@[1].1.model()));
                assert(s[2] == (entries@[2].0@, entries@[2].1.model()));
                assert(s[3] == (entries@[3].0@, entries@[3].1.model()));
                assert(s[4] == (entries@[4].0@, entries@[4].1.model()));
                assert(s[5] == (entries@[5].0@, entries@[5].1.model()));
                assert(s =~= ser_stream(self.model())->Record_0);
            }
            assert(v.model() =~= ser_stream(self.model()));
        }
        v
    }

    /// Deserializes a descriptor: accepts exactly what [`parse_stream`]
    /// accepts. The payload field of the result is absent: it is never
    /// part of the serialized form.
    pub fn from_ser(v: &SerValue) -> (r: Option<Stream>)
        ensures
            match r {
                Option::Some(s) => parse_stream(v.model()) == Option::Some(s.model())
                    && s.user_private is None,
                Option::None => parse_stream(v.model()) is None,
            },
    {
        match v {
            SerValue::Record(entries) => {
                proof {
                    if let SerModel::Record(s) = v.model() {
                        assert(s.len() == entries@.len());
                        if entries@.len() == 6 {
                            assert(s[0] == (entries@[0].0@, entries@[0].1.model()));
                            assert(s[1] == (entries@[1].0@, entries@[1].1.model()));
                            assert(s[2] == (entries@[2].0@, entries@[2].1.model()));
                            assert(s[3] == (entries@[3].0@, entries@[3].1.model()));
                            assert(s[4] == (entries@[4].0@, entries@[4].1.model()));
                            assert(s[5] == (entries@[5].0@, entries@[5].1.model()));
                        }
                    }
                }
                if entries.len() != 6 {
                    return Option::None;
                }
                if !key_matches(&entries[0].0, "id") {
                    return Option::None;
                }
                if !key_matches(&entries[1].0, "index") {
                    return Option::None;
                }
                if !key_matches(&entries[2].0, "params") {
                    return Option::None;
                }
                if !key_matches(&entries[3].0, "start") {
                    return Option::None;
                }
                if !key_matches(&entries[4].0, "duration") {
                    return Option::None;
                }
                if !key_matches(&entries[5].0, "timebase") {
                    return Option::None;
                }
                let id = match &entries[0].1 {
                    SerValue::Int(i) => {
                        if isize::MIN as i64 <= *i && *i <= isize::MAX as i64 {
                            *i as isize
                        } else {
                            return Option::None;
                        }
                    },
                    _ => return Option::None,
                };
                let index = match &entries[1].1 {
                    SerValue::UInt(u) => {
                        if *u <= usize::MAX as u64 {
                            *u as usize
                        } else {
                            return Option::None;
                        }
                    },
                    _ => return Option::None,
                };
                let params = match CodecParams::from_ser(&entries[2].1) {
                    Option::Some(p) => p,
                    Option::None => return Option::None,
                };
                let start = match opt_uint_from_ser(&entries[3].1) {
                    Option::Some(x) => x,
                    Option::None => return Option::None,
                };
                let duration = match opt_uint_from_ser(&entries[4].1) {
                    Option::Some(x) => x,
                    Option::None => return Option::None,
                };
                let timebase = match rational_from_ser(&entries[5].1) {
                    Option::Some(x) => x,
                    Option::None => return Option::None,
                };
                Option::Some(
                    Stream { id, index, params, start, duration, timebase, user_private: Option::None },
                )
            },
            _ => Option::None,
        }
    }
}

/// Round trip: for any stream descriptor content, deserializing its
/// serialized form succeeds and restores every non-opaque field.
pub proof fn lemma_stream_round_trip(m: StreamModel)
    ensures
        parse_stream(ser_stream(m)) == Option::Some(m),
{
    lemma_params_round_trip(m.extradata);
}

/// Serialized form of a stream group: its identifier, the `[start, end)`
/// range and the serialized member streams, in order.
pub open spec fn ser_group(g: StreamGroupModel) -> SerModel {
    SerModel::Record(
        seq![
            ("id"@, SerModel::UInt(g.id as u64)),
            ("start"@, SerModel::UInt(g.start)),
            ("end"@, SerModel::UInt(g.end)),
            ("streams"@, SerModel::List(Seq::new(g.streams.len(), |i: int| ser_stream(g.streams[i])))),
        ],
    )
}

impl<'a> StreamGroup<'a> {
    /// Serializes the group: yields exactly [`ser_group`] of its content.
    /// A group is only written out, never read back: the view borrows its
    /// streams and cannot own deserialized ones.
    pub fn to_ser(&self) -> (v: SerValue)
        ensures
            v.model() == ser_group(self.model()),
    {
        let mut items: Vec<SerValue> = Vec::new();
        let mut i: usize = 0;
        while i < self.streams.len()
            invariant
                i <= self.streams@.len(),
                items@.len() == i,
                forall|j: int|
                    0 <= j < i ==> #[trigger] items@[j].model() == ser_stream(
                        self.streams@[j].model(),
                    ),
            decreases self.streams@.len() - i,
        {
            let item = self.streams[i].to_ser();
            items.push(item);
            i = i + 1;
        }
        let streams_value = SerValue::List(items);
        proof {
            if let SerModel::List(s) = streams_value.model() {
                assert forall|j: int| 0 <= j < s.len() implies s[j] == ser_stream(
                    self.model().streams[j],
                ) by {
                    assert(s[j] == items@[j].model());
                }
                assert(s =~= Seq::new(self.model().streams.len(), |i: int| ser_stream(self.model().streams[i])));
            }
        }
        let mut entries: Vec<(String, SerValue)> = Vec::new();
        entries.push(("id".to_owned(), SerValue::UInt(self.id as u64)));
        entries.push(("start".to_owned(), SerValue::UInt(self.start)));
        entries.push(("end".to_owned(), SerValue::UInt(self.end)));
        entries.push(("streams".to_owned(), streams_value));
        let v = SerValue::Record(entries);
        proof {
            if let SerModel::Record(s) = v.model() {
                assert(s[0] == (entries@[0].0@, entries@[0].1.model()));
                assert(s[1] == (entries@[1].0@, entries@[1].1.model()));
                assert(s[2] == (entries@[2].0@, entries@[2].1.model()));
                assert(s[3] == (entries@[3].0@, entries@[3].1.model()));
                assert(s =~= ser_group(self.model())->Record_0);
            }
            assert(v.model() =~= ser_group(self.model()));
        }
        v
    }
}

} // verus!

