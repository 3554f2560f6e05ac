//! The frame index of a `MOTION ` container and the buffer headers of its
//! frames: where the frames are, when they were taken, and where a frame's
//! JSON metadata lies.
//!
//! The container ends with a 24-byte trailer: an 8-byte item header, the
//! index magic, the number of frames and the position of the index data.
//! The index data holds 16 bytes per frame, the frame's position and its
//! timestamp, both little-endian 64-bit values.

use vstd::prelude::*;
use crate::file::{get_le_u32, le_u32};

verus! {

/// Magic number of the buffer index.
pub const INDEX_MAGIC: u32 = 0x8A905612;

/// Buffer type of a frame's raw samples.
pub const RAW_BUFFER: u32 = 2;

/// Buffer type of a frame's JSON metadata.
pub const METADATA_BUFFER: u32 = 3;

pub open spec fn le_u64(d: Seq<u8>, i: int) -> u64 {
    (le_u32(d, i + 4) as int * 0x1_0000_0000 + le_u32(d, i) as int) as u64
}

fn get_le_u64(d: &[u8], i: usize) -> (r: u64)
    requires
        i + 8 <= d@.len(),
    ensures
        r == le_u64(d@, i as int),
{
    let _n = d.len();
    let lo = get_le_u32(d, i) as u64;
    let hi = get_le_u32(d, i + 4) as u64;
    hi * 0x1_0000_0000 + lo
}

/// The index trailer's frame count and index position.
#[derive(Debug, Clone, Copy, PartialEq, Eq, Structural)]
pub struct IndexTrailer {
    pub num_offsets: u32,
    pub data_offset: u64,
}

/// Reads the 24-byte trailer; `None` when it does not carry the index
/// magic.
pub fn parse_index_trailer(end: &[u8]) -> (r: Option<IndexTrailer>)
    requires
        end@.len() == 24,
    ensures
        r == (if le_u32(end@, 8) == INDEX_MAGIC {
            Some(IndexTrailer { num_offsets: le_u32(end@, 12), data_offset: le_u64(end@, 16) })
        } else {
            None
        }),
{
    if get_le_u32(end, 8) != INDEX_MAGIC {
        return None;
    }
    Some(IndexTrailer { num_offsets: get_le_u32(end, 12), data_offset: get_le_u64(end, 16) })
}

/// The index is read only when it names frames and lies inside the file.
pub fn index_fits(t: &IndexTrailer, file_size: u64) -> (r: bool)
    requires
        t.data_offset + t.num_offsets * 16 <= u64::MAX,
    ensures
        r == (t.num_offsets > 0 && t.data_offset + t.num_offsets * 16 <= file_size),
{
    t.num_offsets > 0 && t.data_offset + t.num_offsets as u64 * 16 <= file_size
}

/// The frames' positions and timestamps, in index order.
pub struct IndexEntries {
    /// Position of the first frame of the index.
    pub first_frame_offset: u64,
    /// Timestamps in nanoseconds, in index order.
    pub timestamps: Vec<i64>,
}

pub open spec fn entry_offset(buf: Seq<u8>, i: int) -> u64 {
    le_u64(buf, 16 * i)
}

pub open spec fn entry_timestamp(buf: Seq<u8>, i: int) -> i64 {
    le_u64(buf, 16 * i + 8) as i64
}

/// Reads `n` index entries.
pub fn parse_index_entries(buf: &[u8], n: usize) -> (r: IndexEntries)
    requires
        n > 0,
        n * 16 <= buf@.len(),
    ensures
        r.first_frame_offset == entry_offset(buf@, 0),
        r.timestamps@ == Seq::new(n as nat, |i: int| entry_timestamp(buf@, i)),
{
    let mut timestamps: Vec<i64> = Vec::new();
    let first_frame_offset = get_le_u64(buf, 0);
    let blen = buf.len();
    let mut i: usize = 0;
    while i < n
        invariant
            i <= n,
            blen == buf@.len(),
            n * 16 <= buf@.len(),
            timestamps@ == Seq::new(i as nat, |k: int| entry_timestamp(buf@, k)),
        decreases n - i,
    {
        assert(16 * i + 16 <= buf@.len()) by (nonlinear_arith)
            requires
                i < n,
                n * 16 <= buf@.len(),
        ;
        let ts = get_le_u64(buf, 16 * i + 8) as i64;
        timestamps.push(ts);
        i = i + 1;
        assert(timestamps@ =~= Seq::new(i as nat, |k: int| entry_timestamp(buf@, k)));
    }
    IndexEntries { first_frame_offset, timestamps }
}

/// The earliest and the latest timestamp: the first and last of them in
/// time order.
pub fn timestamp_span(ts: &[i64]) -> (r: (i64, i64))
    requires
        ts@.len() > 0,
    ensures
        ts@.contains(r.0),
        ts@.contains(r.1),
        forall|i: int| 0 <= i < ts@.len() ==> r.0 <= #[trigger] ts@[i] <= r.1,
{
    let mut lo = ts[0];
    let mut hi = ts[0];
    let mut i: usize = 1;
    while i < ts.len()
        invariant
            1 <= i <= ts@.len(),
            ts@.contains(lo),
            ts@.contains(hi),
            forall|k: int| 0 <= k < i ==> lo <= #[trigger] ts@[k] <= hi,
        decreases ts@.len() - i,
    {
        if ts[i] < lo {
            lo = ts[i];
        }
        if ts[i] > hi {
            hi = ts[i];
        }
        i = i + 1;
    }
    (lo, hi)
}

/// The size of a frame's raw-sample buffer, read from the 8-byte header at
/// the frame's position; `None` when the frame does not begin with one.
pub fn raw_buffer_size(hdr: &[u8]) -> (r: Option<u32>)
    requires
        hdr@.len() == 8,
    ensures
        r == (if le_u32(hdr@, 0) == RAW_BUFFER {
            Some(le_u32(hdr@, 4))
        } else {
            None
        }),
{
    if get_le_u32(hdr, 0) == RAW_BUFFER {
        Some(get_le_u32(hdr, 4))
    } else {
        None
    }
}

/// The size of the JSON metadata buffer that follows the samples; `None`
/// when the header there is of another kind.
pub fn metadata_buffer_size(hdr: &[u8]) -> (r: Option<u32>)
    requires
        hdr@.len() == 8,
    ensures
        r == (if le_u32(hdr@, 0) == METADATA_BUFFER {
            Some(le_u32(hdr@, 4))
        } else {
            None
        }),
{
    if get_le_u32(hdr, 0) == METADATA_BUFFER {
        Some(get_le_u32(hdr, 4))
    } else {
        None
    }
}

/// What `serde_json` reads as the field `key` of the JSON object in `body`,
/// as an unsigned integer.
pub uninterp spec fn json_u64_field(body: Seq<u8>, key: Seq<char>) -> Option<u64>;

/// `serde_json::from_slice::<Value>`, then `Value::get(key)` and
/// `Value::as_u64`: the field `key` of the JSON object in `body` when it is a
/// non-negative integer that fits 64 bits; `None` when `body` is not JSON,
/// the field is missing, or it holds anything else. The parse depends on
/// the bytes alone, so its result is named, not stated.
#[verifier::external_body]
fn json_u64(body: &[u8], key: &str) -> (r: Option<u64>)
    ensures
        r == json_u64_field(body@, key@),
{
    serde_json::from_slice::<serde_json::Value>(body).ok()?.get(key)?.as_u64()
}

/// The frame size given by the JSON metadata of the frame at `offset`: the
/// frame's raw-sample buffer header, the samples it announces, then the
/// metadata buffer header and its body, whose `width` and `height` are taken
/// to 16 bits; `None` when anything is missing or either is 0.
pub open spec fn spec_first_frame_size(data: Seq<u8>, offset: nat) -> Option<(u16, u16)> {
    let at = offset as int;
    if at + 8 > data.len() {
        None
    } else if le_u32(data.subrange(at, at + 8), 0) != RAW_BUFFER {
        None
    } else {
        let m = at + 8 + le_u32(data.subrange(at, at + 8), 4);
        if m + 8 > data.len() {
            None
        } else if le_u32(data.subrange(m, m + 8), 0) != METADATA_BUFFER {
            None
        } else {
            let b = m + 8;
            let e = b + le_u32(data.subrange(m, m + 8), 4);
            if e > data.len() {
                None
            } else {
                let body = data.subrange(b, e);
                match (json_u64_field(body, "width"@), json_u64_field(body, "height"@)) {
                    (Some(w), Some(h)) => if w as u16 == 0 || h as u16 == 0 {
                        None
                    } else {
                        Some((w as u16, h as u16))
                    },
                    _ => None,
                }
            }
        }
    }
}

/// Reads the frame size from the JSON metadata of the frame at `offset`.
pub fn first_frame_size(data: &[u8], offset: u64) -> (r: Option<(u16, u16)>)
    ensures
        r == spec_first_frame_size(data@, offset as nat),
{
    let len = data.len();
    if offset > len as u64 || len - (offset as usize) < 8 {
        return None;
    }
    let at = offset as usize;
    let raw = match raw_buffer_size(vstd::slice::slice_subrange(data, at, at + 8)) {
        Some(v) => v as usize,
        None => return None,
    };
    if len - (at + 8) < raw || len - (at + 8) - raw < 8 {
        return None;
    }
    let m = at + 8 + raw;
    let size = match metadata_buffer_size(vstd::slice::slice_subrange(data, m, m + 8)) {
        Some(v) => v as usize,
        None => return None,
    };
    if len - (m + 8) < size {
        return None;
    }
    let body = vstd::slice::slice_subrange(data, m + 8, m + 8 + size);
    let w = match json_u64(body, "width") {
        Some(v) => v as u16,
        None => return None,
    };
    let h = match json_u64(body, "height") {
        Some(v) => v as u16,
        None => return None,
    };
    if w == 0 || h == 0 {
        return None;
    }
    Some((w, h))
}

} // verus!
