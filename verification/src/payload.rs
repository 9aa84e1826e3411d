use vstd::prelude::*;

verus! {

/// A shared, type-erased, thread-safe handle to caller-defined auxiliary
/// data. The model neither inspects nor mutates the payload; it only stores
/// and duplicates the handle. The payload is excluded from the serialized
/// representation and from every contract about field values.
///
/// The handle is opaque to the verifier: a shared-ownership pointer to a
/// dynamically typed value that Verus cannot express directly.
#[derive(Debug)]
#[verifier::external_body]
pub struct OpaquePayload {
    handle: std::sync::Arc<dyn core::any::Any + Send + Sync>,
}

impl OpaquePayload {
    /// Wraps a caller-owned value into a shared handle.
    ///
    /// Relies on `Arc::new`: the handle refers to the stored value.
    /// Nothing further is claimed; the payload is opaque to this model.
    #[verifier::external_body]
    pub fn from_value<T: core::any::Any + Send + Sync>(value: T) -> OpaquePayload {
        OpaquePayload { handle: std::sync::Arc::new(value) }
    }
}

impl Clone for OpaquePayload {
    /// Duplicates the handle, not the payload behind it.
    ///
    /// Relies on `Arc::clone`: the duplicate refers to the same payload, so
    /// the two handles stand for the same abstract value.
    #[verifier::external_body]
    fn clone(&self) -> (r: Self)
        ensures
            r == *self,
    {
        OpaquePayload { handle: self.handle.clone() }
    }
}

} // verus!
