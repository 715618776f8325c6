//! Data views: cheap-to-duplicate handles over immutable byte buffers, used
//! to hand variable-length results (call output, account code) across the
//! boundary without copying.

use std::sync::Arc;
use vstd::prelude::*;

verus! {

/// A handle over an immutable byte buffer produced by the host.
/// Note: cloning duplicates the reader, never the underlying bytes.
pub trait DataReader: Clone + Send + 'static {
    /// The bytes this reader exposes.
    spec fn bytes(&self) -> Seq<u8>;

    /// The underlying byte buffer.
    fn slice(&self) -> (r: &[u8])
        ensures
            r@ == self.bytes(),
    ;
}

/// Simple implementation for [`DataReader`], in case data comes from a `Vec`.
/// The buffer is reference-counted: every clone shares it, and it lives as
/// long as its longest-lived holder.
#[derive(Clone, Debug)]
pub struct VecReader(Arc<Vec<u8>>);

impl VecReader {
    /// Wraps the given bytes in a shared, immutable buffer.
    pub fn new(data: Vec<u8>) -> (r: Self)
        ensures
            r.bytes() == data@,
    {
        VecReader(Arc::new(data))
    }
}

impl DataReader for VecReader {
    closed spec fn bytes(&self) -> Seq<u8> {
        self.0@
    }

    fn slice(&self) -> (r: &[u8]) {
        self.0.as_slice()
    }
}

} // verus!
