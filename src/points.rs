//! Reading coordinate triples out of a caller-owned array of fixed-size
//! records, and the construction request that validates and then reads.

use vstd::prelude::*;
use crate::range::{CreateError, IndexRange, range_of, requested_start, validate_range};

verus! {

/// Bytes that one coordinate occupies in a record.
pub const COORD_BYTES: usize = 4;

/// Bytes that the three coordinates of a point occupy in a record.
pub const POINT_BYTES: usize = 12;

/// A read-only view of a caller's array: `data` holds the records one after
/// another, each `stride` bytes long.
pub struct ArrayView {
    pub data: Vec<u8>,
    pub stride: usize,
}

/// One point as read from a record: the three coordinates as the bit
/// patterns of single-precision floats, uninterpreted, and the record's
/// position in the array as payload.
#[derive(Clone, Copy, Debug, PartialEq, Eq, Structural)]
pub struct RawPoint {
    pub x: u32,
    pub y: u32,
    pub z: u32,
    pub payload: i32,
}

/// The points of a validated range, in position order, and the first
/// position that the range covers.
pub struct PointSet {
    pub points: Vec<RawPoint>,
    pub base_offset: i32,
}

/// The little-endian 32-bit value of the four bytes of `b` from `at`.
pub open spec fn le_u32(b: Seq<u8>, at: int) -> int {
    b[at] + b[at + 1] * 256 + b[at + 2] * 65536 + b[at + 3] * 16777216
}

impl ArrayView {
    /// Records have a positive length, the data is a whole number of them,
    /// and every position fits in an `i32`.
    pub open spec fn wf(&self) -> bool {
        &&& self.stride > 0
        &&& (self.data@.len() as int) % (self.stride as int) == 0
        &&& (self.data@.len() as int) / (self.stride as int) <= i32::MAX
    }

    /// The number of records.
    pub open spec fn size(&self) -> int {
        (self.data@.len() as int) / (self.stride as int)
    }

    /// The point that the record at position `i` holds at byte `offset`.
    pub open spec fn point_at(&self, offset: int, i: int) -> RawPoint {
        let base = i * self.stride + offset;
        RawPoint {
            x: le_u32(self.data@, base) as u32,
            y: le_u32(self.data@, base + 4) as u32,
            z: le_u32(self.data@, base + 8) as u32,
            payload: i as i32,
        }
    }

    /// The points of the `count` records from position `start`.
    pub open spec fn points_of(&self, offset: int, start: int, count: int) -> Seq<RawPoint> {
        Seq::new(count as nat, |k: int| self.point_at(offset, start + k))
    }

    /// Wraps `data` as records of `stride` bytes; `None` where it is not a
    /// well-formed view.
    pub fn new(data: Vec<u8>, stride: usize) -> (r: Option<ArrayView>)
        ensures
            r is Some <==> (ArrayView { data, stride }).wf(),
            r matches Some(v) ==> v.data@ == data@ && v.stride == stride,
    {
        if stride == 0 || data.len() % stride != 0 || data.len() / stride > i32::MAX as usize {
            None
        } else {
            Some(ArrayView { data, stride })
        }
    }

    /// The number of records.
    pub fn len(&self) -> (r: usize)
        requires
            self.wf(),
        ensures
            r == self.size(),
    {
        self.data.len() / self.stride
    }

    /// The length of one record in bytes.
    pub fn stride(&self) -> (r: usize)
        ensures
            r == self.stride,
    {
        self.stride
    }

    /// The little-endian 32-bit value at byte `at` of the data.
    fn read_u32(&self, at: usize) -> (r: u32)
        requires
            at + COORD_BYTES <= self.data@.len(),
        ensures
            r == le_u32(self.data@, at as int),
    {
        let n: usize = self.data.len();
        assert(at + 3 < n);
        let b0 = self.data[at] as u32;
        let b1 = self.data[at + 1] as u32;
        let b2 = self.data[at + 2] as u32;
        let b3 = self.data[at + 3] as u32;
        assert(b1 * 256 <= 65280 && b2 * 65536 <= 16711680 && b3 * 16777216 <= 4278190080)
            by (nonlinear_arith)
            requires
                b1 < 256,
                b2 < 256,
                b3 < 256,
        ;
        b0 + b1 * 256 + b2 * 65536 + b3 * 16777216
    }

    /// Reads the point that the record at position `i` holds at byte `offset`.
    pub fn read_point(&self, offset: usize, i: usize) -> (r: RawPoint)
        requires
            self.wf(),
            offset + POINT_BYTES <= self.stride,
            i < self.size(),
        ensures
            r == self.point_at(offset as int, i as int),
    {
        let n: usize = self.data.len();
        proof {
            lemma_record_in_bounds(n as int, self.stride as int, i as int);
        }
        let base: usize = i * self.stride + offset;
        RawPoint {
            x: self.read_u32(base),
            y: self.read_u32(base + 4),
            z: self.read_u32(base + 8),
            payload: i as i32,
        }
    }
}

/// A record at a position below the number of records ends within the data.
proof fn lemma_record_in_bounds(len: int, stride: int, i: int)
    requires
        stride > 0,
        len >= 0,
        len % stride == 0,
        0 <= i < len / stride,
    ensures
        i * stride + stride <= len,
{
    vstd::arithmetic::div_mod::lemma_fundamental_div_mod(len, stride);
    assert(i * stride + stride <= len) by (nonlinear_arith)
        requires
            i + 1 <= len / stride,
            stride > 0,
            len == stride * (len / stride) + len % stride,
            len % stride == 0,
    ;
}

/// Reads the points of the records `range.start .. range.start + range.count`
/// at byte `offset`, in position order.
pub fn extract_points(view: &ArrayView, offset: usize, range: IndexRange) -> (r: Vec<RawPoint>)
    requires
        view.wf(),
        offset + POINT_BYTES <= view.stride,
        range.start + range.count <= view.size(),
    ensures
        r@ == view.points_of(offset as int, range.start as int, range.count as int),
{
    let mut out: Vec<RawPoint> = Vec::new();
    let mut k: usize = 0;
    while k < range.count
        invariant
            view.wf(),
            offset + POINT_BYTES <= view.stride,
            range.start + range.count <= view.size(),
            k <= range.count,
            out@ == view.points_of(offset as int, range.start as int, k as int),
        decreases range.count - k,
    {
        let p = view.read_point(offset, range.start + k);
        out.push(p);
        k = k + 1;
        assert(out@ =~= view.points_of(offset as int, range.start as int, k as int));
    }
    out
}

/// The outcome of a construction request: the range is validated first, then
/// the offset is checked against the record length, then the points are read.
pub open spec fn create_result(
    view: ArrayView,
    offset: int,
    startidx: Option<i32>,
    count: Option<i32>,
) -> Result<Seq<RawPoint>, CreateError> {
    match range_of(offset, view.size(), startidx, count) {
        Err(e) => Err(e),
        Ok(rg) => if offset + POINT_BYTES > view.stride {
            Err(CreateError::RecordTooShort)
        } else {
            Ok(view.points_of(offset, rg.start as int, rg.count as int))
        },
    }
}

/// Validates a request for the records from `startidx` (default zero), at
/// most `count` of them (default all), with coordinates at byte `offset` of
/// each record, and reads their points.
pub fn create(view: &ArrayView, offset: i32, startidx: Option<i32>, count: Option<i32>) -> (r:
    Result<PointSet, CreateError>)
    requires
        view.wf(),
    ensures
        match (r, create_result(*view, offset as int, startidx, count)) {
            (Ok(set), Ok(pts)) => set.points@ == pts && set.base_offset == requested_start(startidx),
            (Err(e), Err(f)) => e == f,
            _ => false,
        },
{
    let size = view.len();
    let range = match validate_range(offset, size, startidx, count) {
        Ok(rg) => rg,
        Err(e) => return Err(e),
    };
    let offset: usize = offset as usize;
    if offset > view.stride() || view.stride() - offset < POINT_BYTES {
        return Err(CreateError::RecordTooShort);
    }
    let points = extract_points(view, offset, range);
    Ok(PointSet { points, base_offset: range.start as i32 })
}

/// An array with no records cannot be indexed: construction fails with an
/// invalid-argument error whatever range is asked for.
pub proof fn lemma_empty_array_rejected(
    view: ArrayView,
    offset: int,
    startidx: Option<i32>,
    count: Option<i32>,
)
    requires
        view.wf(),
        view.size() == 0,
    ensures
        create_result(view, offset, startidx, count) is Err,
{
}

/// A negative offset is refused as such, whatever the array holds and
/// whatever range is asked for: the outcome does not depend on the array.
pub proof fn lemma_negative_offset_rejected(
    view: ArrayView,
    offset: int,
    startidx: Option<i32>,
    count: Option<i32>,
)
    requires
        offset < 0,
    ensures
        create_result(view, offset, startidx, count) == Err::<Seq<RawPoint>, CreateError>(
            CreateError::NegativeOffset,
        ),
{
}

/// Every point that construction reads carries its own position as payload:
/// the payloads are distinct, and the record at a point's payload position
/// holds exactly that point's coordinates.
pub proof fn lemma_payloads_are_positions(
    view: ArrayView,
    offset: int,
    startidx: Option<i32>,
    count: Option<i32>,
)
    requires
        view.wf(),
        create_result(view, offset, startidx, count) is Ok,
    ensures
        ({
            let pts = create_result(view, offset, startidx, count)->Ok_0;
            &&& forall|j: int, k: int|
                0 <= j < pts.len() && 0 <= k < pts.len() && j != k ==> #[trigger] pts[j].payload
                    != #[trigger] pts[k].payload
            &&& forall|k: int|
                0 <= k < pts.len() ==> view.point_at(offset, #[trigger] pts[k].payload as int)
                    == pts[k]
        }),
{
    let rg = range_of(offset, view.size(), startidx, count)->Ok_0;
    let pts = create_result(view, offset, startidx, count)->Ok_0;
    assert forall|k: int| 0 <= k < pts.len() implies #[trigger] pts[k].payload == rg.start + k by {
        assert(rg.start + k <= i32::MAX);
    }
}

} // verus!
