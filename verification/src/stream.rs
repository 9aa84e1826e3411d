use vstd::prelude::*;

use crate::params::CodecParams;
use crate::payload::OpaquePayload;
use crate::rational::Rational64;

verus! {

/// Per-stream identity and timing defaults.
///
/// Created once per logical stream when a container is opened; the owning
/// demuxer or muxer mutates `id`, `index`, `start` and `duration` in place
/// once the format determines them. Uniqueness of non-negative ids within
/// one source is an obligation on that owner, not checked here.
#[derive(Debug)]
pub struct Stream {
    /// Format-specific track identifier.
    ///
    /// If negative, either the stream is not supported by the underlying
    /// format or the default progression should be used. Non-negative ids
    /// must be unique for each stream of one source.
    pub id: isize,
    /// Stream position within the source file.
    pub index: usize,
    /// Codec parameters of the stream.
    pub params: CodecParams,
    /// Start position of the stream; if absent, the start position is not
    /// considered.
    pub start: Option<u64>,
    /// Stream duration; if absent, the duration is not considered.
    pub duration: Option<u64>,
    /// Tick unit of the stream, fixed for its lifetime.
    pub timebase: Rational64,
    /// Caller-defined auxiliary data; never serialized, never inspected.
    pub user_private: Option<OpaquePayload>,
}

/// The descriptor's fields as mathematical values, the opaque payload left
/// aside: what equality and the serialized representation speak of.
pub struct StreamModel {
    /// Track identifier.
    pub id: isize,
    /// Position within the source.
    pub index: usize,
    /// Extradata bytes of the codec parameters, or absent.
    pub extradata: Option<Seq<u8>>,
    /// Start position, or absent.
    pub start: Option<u64>,
    /// Duration, or absent.
    pub duration: Option<u64>,
    /// Tick unit.
    pub timebase: Rational64,
}

impl Stream {
    /// The non-opaque content of the descriptor.
    pub open spec fn model(self) -> StreamModel {
        StreamModel {
            id: self.id,
            index: self.index,
            extradata: self.params.extradata_model(),
            start: self.start,
            duration: self.duration,
            timebase: self.timebase,
        }
    }

    /// Creates a new `Stream` instance from codec parameters.
    ///
    /// The parameters are cloned into ownership; the timebase is moved in.
    /// The result carries the canonical defaults: `id` is `-1` (no track
    /// assigned yet), `index` is `0`, start, duration and payload are
    /// absent. The owning container overwrites `id` and `index` once the
    /// format determines them.
    pub fn from_params(params: &CodecParams, timebase: Rational64) -> (s: Self)
        ensures
            s.id == -1,
            s.index == 0,
            s.params.extradata_model() == params.extradata_model(),
            s.start is None,
            s.duration is None,
            s.timebase == timebase,
            s.user_private is None,
    {
        Stream {
            id: -1,
            index: 0,
            params: params.clone(),
            start: None,
            duration: None,
            timebase,
            user_private: None,
        }
    }

    /// Returns extradata associated to the codec parameters of a stream:
    /// a read-only view of exactly the stored bytes, or absent if none
    /// were set.
    pub fn get_extradata(&self) -> (r: Option<&[u8]>)
        ensures
            match r {
                Option::Some(bytes) => self.params.extradata_model() == Option::Some(bytes@),
                Option::None => self.params.extradata_model() is None,
            },
    {
        match &self.params.extradata {
            Option::Some(v) => Option::Some(v.as_slice()),
            Option::None => Option::None,
        }
    }
}

impl Clone for Stream {
    /// Yields a descriptor with the same non-opaque content; the codec
    /// parameters are copied into independent ownership, the opaque payload
    /// is duplicated as a shared handle.
    fn clone(&self) -> (r: Self)
        ensures
            r.model() == self.model(),
            r.user_private == self.user_private,
    {
        Stream {
            id: self.id,
            index: self.index,
            params: self.params.clone(),
            start: self.start,
            duration: self.duration,
            timebase: self.timebase,
            user_private: match &self.user_private {
                Option::Some(p) => Option::Some(p.clone()),
                Option::None => Option::None,
            },
        }
    }
}

/// Group of streams: a transient, read-only aggregation of descriptors
/// that belong together by container-level boundaries. The view does not
/// own the descriptors and must not outlive them; the owning container
/// logic decides membership, this type only packages the result.
pub struct StreamGroup<'a> {
    /// Stream group identifier; unique for each group of one source.
    pub id: usize,
    /// Start position of the stream group; at most `end` for a meaningful
    /// range, which this model does not enforce.
    pub start: u64,
    /// End position of the stream group.
    pub end: u64,
    /// Streams of the group.
    pub streams: &'a [Stream],
}

/// The group's content as mathematical values.
pub struct StreamGroupModel {
    /// Group identifier.
    pub id: usize,
    /// Start position.
    pub start: u64,
    /// End position.
    pub end: u64,
    /// Non-opaque content of each member stream, in order.
    pub streams: Seq<StreamModel>,
}

impl<'a> StreamGroup<'a> {
    /// The non-opaque content of the group.
    pub open spec fn model(self) -> StreamGroupModel {
        StreamGroupModel {
            id: self.id,
            start: self.start,
            end: self.end,
            streams: Seq::new(self.streams@.len(), |i: int| self.streams@[i].model()),
        }
    }

    /// Number of streams in the group.
    pub fn stream_count(&self) -> (n: usize)
        ensures
            n == self.model().streams.len(),
    {
        self.streams.len()
    }

    /// Length of the `[start, end)` range the group covers.
    pub fn span(&self) -> (n: u64)
        requires
            self.start <= self.end,
        ensures
            n == self.end - self.start,
    {
        self.end - self.start
    }
}

} // verus!
