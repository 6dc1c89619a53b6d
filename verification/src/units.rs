//! Strong unit types for the transfer settings of a client.
use vstd::prelude::*;
use vstd::std_specs::convert::FromSpecImpl;

verus! {

/// A strong type unit when setting download speed and upload speed
/// in bytes per second.
pub struct BytesPerSec(pub u64);

/// A strong type unit when offsetting especially in resuming download.
pub struct BytesOffset(pub usize);

/// A strong type unit when setting a file size.
pub struct FileSize(pub usize);

impl From<u64> for BytesPerSec {
    fn from(value: u64) -> (r: Self)
        ensures
            r.0 == value,
    {
        BytesPerSec(value)
    }
}

impl FromSpecImpl<u64> for BytesPerSec {
    open spec fn obeys_from_spec() -> bool {
        true
    }

    open spec fn from_spec(v: u64) -> BytesPerSec {
        BytesPerSec(v)
    }
}

impl From<usize> for BytesOffset {
    fn from(value: usize) -> (r: Self)
        ensures
            r.0 == value,
    {
        BytesOffset(value)
    }
}

impl FromSpecImpl<usize> for BytesOffset {
    open spec fn obeys_from_spec() -> bool {
        true
    }

    open spec fn from_spec(v: usize) -> BytesOffset {
        BytesOffset(v)
    }
}

impl From<usize> for FileSize {
    fn from(value: usize) -> (r: Self)
        ensures
            r.0 == value,
    {
        FileSize(value)
    }
}

impl FromSpecImpl<usize> for FileSize {
    open spec fn obeys_from_spec() -> bool {
        true
    }

    open spec fn from_spec(v: usize) -> FileSize {
        FileSize(v)
    }
}

impl core::ops::Deref for BytesPerSec {
    type Target = u64;

    fn deref(&self) -> (r: &u64)
        ensures
            *r == self.0,
    {
        &self.0
    }
}

impl core::ops::Deref for BytesOffset {
    type Target = usize;

    fn deref(&self) -> (r: &usize)
        ensures
            *r == self.0,
    {
        &self.0
    }
}

impl core::ops::Deref for FileSize {
    type Target = usize;

    fn deref(&self) -> (r: &usize)
        ensures
            *r == self.0,
    {
        &self.0
    }
}

} // verus!
