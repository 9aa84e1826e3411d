use vstd::prelude::*;

verus! {

/// Codec parameters of a stream, as far as this model reads them: the
/// optional codec-specific initialization bytes (extradata). Everything
/// else a codec implementation keeps in its parameters is outside this
/// model's vocabulary.
#[derive(Debug)]
pub struct CodecParams {
    /// Codec-specific initialization bytes, if any were set.
    pub extradata: Option<Vec<u8>>,
}

impl CodecParams {
    /// The extradata as a mathematical value: the byte sequence, or absent.
    pub open spec fn extradata_model(self) -> Option<Seq<u8>> {
        match self.extradata {
            Option::Some(v) => Option::Some(v@),
            Option::None => Option::None,
        }
    }

    /// Builds parameters carrying the given extradata.
    pub fn new(extradata: Option<Vec<u8>>) -> (r: Self)
        ensures
            r.extradata_model() == match extradata {
                Option::Some(v) => Option::Some::<Seq<u8>>(v@),
                Option::None => Option::None::<Seq<u8>>,
            },
    {
        CodecParams { extradata }
    }
}

impl Clone for CodecParams {
    /// Yields an independently owned, value-equal copy.
    fn clone(&self) -> (r: Self)
        ensures
            r.extradata_model() == self.extradata_model(),
    {
        CodecParams {
            extradata: match &self.extradata {
                Option::Some(v) => Option::Some(v.clone()),
                Option::None => Option::None,
            },
        }
    }
}

} // verus!
