//! Validation of the requested record range before an index is built.

use vstd::prelude::*;

verus! {

/// Why a construction request was refused. Every variant is an
/// invalid-argument error of the caller.
#[derive(Clone, Copy, Debug, PartialEq, Eq, Structural)]
pub enum CreateError {
    /// The byte offset into each record was negative.
    NegativeOffset,
    /// The first position was negative or not below the array's size.
    StartOutOfRange,
    /// The requested number of records was below one.
    CountTooSmall,
    /// A record is too short to hold three 4-byte coordinates at the offset.
    RecordTooShort,
}

/// A validated run of records: positions `start .. start + count`.
#[derive(Clone, Copy, Debug, PartialEq, Eq, Structural)]
pub struct IndexRange {
    pub start: usize,
    pub count: usize,
}

/// The first position asked for; absent means position zero.
pub open spec fn requested_start(startidx: Option<i32>) -> int {
    match startidx {
        Some(s) => s as int,
        None => 0,
    }
}

/// The number of records asked for; absent means the whole array.
pub open spec fn requested_count(count: Option<i32>, size: int) -> int {
    match count {
        Some(c) => c as int,
        None => size,
    }
}

/// The outcome of validating a request on an array of `size` records: the
/// offset is checked first, then the start, then the count, which is then
/// clamped to the records that remain from the start.
pub open spec fn range_of(
    offset: int,
    size: int,
    startidx: Option<i32>,
    count: Option<i32>,
) -> Result<IndexRange, CreateError> {
    let s = requested_start(startidx);
    let c = requested_count(count, size);
    if offset < 0 {
        Err(CreateError::NegativeOffset)
    } else if s < 0 || s >= size {
        Err(CreateError::StartOutOfRange)
    } else if c < 1 {
        Err(CreateError::CountTooSmall)
    } else {
        Ok(IndexRange { start: s as usize, count: (if c < size - s { c } else { size - s }) as usize })
    }
}

/// Validates `offset`, `startidx` and `count` against an array of `size`
/// records and returns the clamped range of positions to index.
pub fn validate_range(offset: i32, size: usize, startidx: Option<i32>, count: Option<i32>) -> (r:
    Result<IndexRange, CreateError>)
    requires
        size <= i32::MAX,
    ensures
        r == range_of(offset as int, size as int, startidx, count),
        r matches Ok(rg) ==> rg.count >= 1 && rg.start + rg.count <= size,
{
    if offset < 0 {
        return Err(CreateError::NegativeOffset);
    }
    let start: i32 = match startidx {
        Some(s) => s,
        None => 0,
    };
    if start < 0 || start as usize >= size {
        return Err(CreateError::StartOutOfRange);
    }
    let requested: i32 = match count {
        Some(c) => c,
        None => size as i32,
    };
    if requested < 1 {
        return Err(CreateError::CountTooSmall);
    }
    let remaining: usize = size - start as usize;
    let clamped: usize = if (requested as usize) < remaining {
        requested as usize
    } else {
        remaining
    };
    Ok(IndexRange { start: start as usize, count: clamped })
}

} // verus!
