//! Writing the contents of an asset.
use vstd::prelude::*;

use crate::text::push_text;

verus! {

/// Errors of [`WritableAsset`].
#[derive(Clone, Debug)]
pub enum WritableAssetError {
    /// The asset could not be closed; the reason is given.
    CloseFailed(String),
    /// The changes could not be written; the reason is given.
    WriteFailed(String),
}

/// The message of a writable asset error.
pub open spec fn writable_asset_error_message(e: WritableAssetError) -> Seq<char> {
    match e {
        WritableAssetError::CloseFailed(s) => "failed to close asset: "@ + s@,
        WritableAssetError::WriteFailed(s) => "failed to save changes to asset: "@ + s@,
    }
}

impl WritableAssetError {
    /// The message of this error, for people to read.
    pub fn to_string(&self) -> (r: String)
        ensures
            r@ == writable_asset_error_message(*self),
    {
        let mut r = String::new();
        match self {
            WritableAssetError::CloseFailed(s) => {
                push_text(&mut r, "failed to close asset: ");
                push_text(&mut r, s.as_str());
            },
            WritableAssetError::WriteFailed(s) => {
                push_text(&mut r, "failed to save changes to asset: ");
                push_text(&mut r, s.as_str());
            },
        }
        r
    }
}

/// Writing data to an asset, as a resolver opens it for writing.
pub trait WritableAsset {
    /// Closes the asset and commits what was written. After a success,
    /// reads of the asset in this process see all of it; no other call on
    /// this value is valid afterwards.
    fn close(&mut self) -> Result<(), WritableAssetError>;

    /// Writes `count` bytes of `buffer` at `offset` from the start of the
    /// asset, and gives the number of bytes written.
    fn write(&mut self, buffer: &[u8], count: usize, offset: usize) -> Result<
        usize,
        WritableAssetError,
    >;
}

} // verus!
