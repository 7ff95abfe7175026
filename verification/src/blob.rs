//! Output buffers of the native compiler, copied into owned memory.

use vstd::prelude::*;
use vstd::slice::slice_to_vec;

verus! {

/// A buffer that the native compiler owns and the caller may only read while
/// the compiler's handle is held. `buffer` is absent where the handle reports
/// a null pointer.
#[derive(Debug, Clone, Copy, PartialEq, Eq)]
pub struct Blob<'a> {
    pub buffer: Option<&'a [u8]>,
}

impl<'a> View for Blob<'a> {
    type V = Seq<u8>;

    /// The bytes that can be read through the handle: none behind a null
    /// pointer.
    open spec fn view(&self) -> Seq<u8> {
        match self.buffer {
            Some(bytes) => bytes@,
            None => Seq::empty(),
        }
    }
}

/// What is extracted from an output slot: nothing from an empty slot, the
/// handle's bytes otherwise.
pub open spec fn artifact_of(handle: Option<Blob>) -> Option<Seq<u8>> {
    match handle {
        Some(blob) => Some(blob@),
        None => None,
    }
}

/// The owned form of an extracted artifact.
pub open spec fn owned_view(artifact: Option<Vec<u8>>) -> Option<Seq<u8>> {
    match artifact {
        Some(bytes) => Some(bytes@),
        None => None,
    }
}

/// Copies a compiler-owned buffer into owned memory. A handle with a null
/// pointer gives an empty vector.
pub fn read_blob(blob: Blob) -> (bytes: Vec<u8>)
    ensures
        bytes@ == blob@,
        blob.buffer is None ==> bytes@.len() == 0,
{
    match blob.buffer {
        Some(buffer) => slice_to_vec(buffer),
        None => Vec::new(),
    }
}

/// Extracts the artifact of an output slot that the compiler may have left
/// empty. An empty slot gives `None`; a handle gives `Some`, with an empty
/// vector where its pointer is null: no artifact and an empty artifact stay
/// apart.
pub fn extract_artifact(handle: Option<Blob>) -> (artifact: Option<Vec<u8>>)
    ensures
        owned_view(artifact) == artifact_of(handle),
        artifact is None <==> handle is None,
        handle matches Some(blob) && blob.buffer is None ==> (artifact matches Some(bytes)
            && bytes@.len() == 0),
{
    match handle {
        Some(blob) => Some(read_blob(blob)),
        None => None,
    }
}

} // verus!
