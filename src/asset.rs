//! Reading the contents of an asset.
use vstd::prelude::*;

use crate::text::push_text;

verus! {

/// Errors of [`Asset`].
#[derive(Clone, Debug)]
pub enum AssetError {
    /// The asset could not be read; the reason is given.
    ReadError(String),
}

/// The message of an asset error.
pub open spec fn asset_error_message(e: AssetError) -> Seq<char> {
    match e {
        AssetError::ReadError(s) => "failed to read asset: "@ + s@,
    }
}

impl AssetError {
    /// The message of this error, for people to read.
    pub fn to_string(&self) -> (r: String)
        ensures
            r@ == asset_error_message(*self),
    {
        let mut r = String::new();
        match self {
            AssetError::ReadError(s) => {
                push_text(&mut r, "failed to read asset: ");
                push_text(&mut r, s.as_str());
            },
        }
        r
    }
}

/// Access to the contents of an asset, as a resolver opens it.
pub trait Asset {
    /// The size of the asset, in bytes.
    fn get_size(&self) -> usize;

    /// The contents of the asset, of the size that [`Asset::get_size`]
    /// gives, or an error when they cannot be had.
    fn get_buffer(&self) -> Result<&[u8], AssetError>;

    /// Reads `count` bytes at `offset` from the start of the asset into
    /// `buffer`, and gives the number of bytes read. A read out of bounds
    /// is an error.
    fn read(&self, buffer: &mut [u8], count: usize, offset: usize) -> Result<usize, AssetError>;
}

} // verus!
