//! Reading and seeking within an in-memory file, as mod files embedded in
//! the game are read.

use vstd::prelude::*;

verus! {

/// Where a seek is measured from, and by how much.
#[derive(Debug, Clone, Copy, PartialEq, Eq, Structural)]
pub enum SeekPosition {
    /// An absolute byte offset
    Start(u64),
    /// An offset from the end of the data
    End(i64),
    /// An offset from the current position
    Current(i64),
}

/// A seek was refused because the resulting position is out of range
/// (an invalid-input error).
#[derive(Debug, Clone, Copy, PartialEq, Eq, Structural)]
pub struct SeekOutOfRange;

/// The position a seek is measured from.
pub open spec fn spec_seek_origin(len: int, cursor: int, pos: SeekPosition) -> int {
    match pos {
        SeekPosition::Start(_) => 0,
        SeekPosition::End(_) => len,
        SeekPosition::Current(_) => cursor,
    }
}

/// The offset of a seek, when it fits in an `i64`.
pub open spec fn spec_seek_offset(pos: SeekPosition) -> Option<int> {
    match pos {
        SeekPosition::Start(o) => if o <= i64::MAX { Some(o as int) } else { None },
        SeekPosition::End(o) => Some(o as int),
        SeekPosition::Current(o) => Some(o as int),
    }
}

/// The position a seek lands on, when the offset and the origin fit in an
/// `i64` and the result is a valid position: not negative, and within both
/// `i64` and `usize`.
pub open spec fn spec_seek_target(len: int, cursor: int, pos: SeekPosition) -> Option<int> {
    let origin = spec_seek_origin(len, cursor, pos);
    match spec_seek_offset(pos) {
        None => None,
        Some(offset) => if origin > i64::MAX {
            None
        } else if 0 <= origin + offset <= i64::MAX && origin + offset <= usize::MAX {
            Some(origin + offset)
        } else {
            None
        },
    }
}

/// The number of bytes a read of `buf_len` bytes at `cursor` gives from
/// data of length `len`: what fits in the buffer and remains in the data.
pub open spec fn spec_read_count(len: int, cursor: int, buf_len: int) -> int {
    if cursor >= len {
        0
    } else if buf_len < len - cursor {
        buf_len
    } else {
        len - cursor
    }
}

/// Reads from `slice`, starting at the cursor `bytes_read`, into `buf`:
/// as many bytes as fit in `buf` or remain in `slice`. The cursor advances
/// by the number of bytes read, which is returned; the rest of `buf` is
/// left as it was.
pub fn slice_read(slice: &[u8], bytes_read: &mut usize, buf: &mut [u8]) -> (n: usize)
    ensures
        *old(bytes_read) >= slice.len() ==> {
            &&& n == 0
            &&& *final(bytes_read) == *old(bytes_read)
            &&& final(buf)@ == old(buf)@
        },
        n == spec_read_count(slice.len() as int, *old(bytes_read) as int, old(buf).len() as int),
        *old(bytes_read) < slice.len() ==> {
            &&& *final(bytes_read) == *old(bytes_read) + n
            &&& final(buf)@ == slice@.subrange(*old(bytes_read) as int, *old(bytes_read) + n)
                + old(buf)@.subrange(n as int, old(buf)@.len() as int)
        },
{
    if *bytes_read >= slice.len() {
        0
    } else {
        let start = *bytes_read;
        let remaining = slice.len() - start;
        let n = if buf.len() < remaining { buf.len() } else { remaining };
        let mut i: usize = 0;
        while i < n
            invariant
                start == *old(bytes_read),
                start + n <= slice.len(),
                n <= buf.len(),
                i <= n,
                buf@.len() == old(buf)@.len(),
                forall|j: int| 0 <= j < i ==> buf@[j] == slice@[start + j],
                forall|j: int| i <= j < buf@.len() ==> buf@[j] == old(buf)@[j],
            decreases n - i,
        {
            buf[i] = slice[start + i];
            i = i + 1;
        }
        *bytes_read = start + n;
        assert(buf@ =~= slice@.subrange(start as int, start + n) + old(buf)@.subrange(n as int, old(buf)@.len() as int));
        n
    }
}

/// Moves the cursor `bytes_read` over data of `slice`'s length and returns
/// the new position. A seek whose offset or origin does not fit in an
/// `i64`, that lands before the start, or whose position does not fit in an
/// `i64` or a `usize`, is refused and leaves the cursor as it was.
pub fn slice_seek(slice: &[u8], bytes_read: &mut usize, pos: SeekPosition) -> (r: Result<u64, SeekOutOfRange>)
    ensures
        match spec_seek_target(slice.len() as int, *old(bytes_read) as int, pos) {
            Some(p) => r == Ok::<u64, SeekOutOfRange>(p as u64) && *final(bytes_read) == p,
            None => r == Err::<u64, SeekOutOfRange>(SeekOutOfRange) && *final(bytes_read) == *old(
                bytes_read,
            ),
        },
{
    let (origin, offset): (usize, Option<i64>) = match pos {
        SeekPosition::Current(offset) => (*bytes_read, Some(offset)),
        SeekPosition::Start(offset) => (0, if offset <= i64::MAX as u64 { Some(offset as i64) } else { None }),
        SeekPosition::End(offset) => (slice.len(), Some(offset)),
    };
    let offset = match offset {
        Some(o) => o,
        None => return Err(SeekOutOfRange),
    };
    if origin as u64 > i64::MAX as u64 {
        return Err(SeekOutOfRange);
    }
    let new_pos: i128 = origin as i128 + offset as i128;
    if new_pos < 0 || new_pos > i64::MAX as i128 || new_pos > usize::MAX as i128 {
        return Err(SeekOutOfRange);
    }
    *bytes_read = new_pos as usize;
    Ok(new_pos as u64)
}

/// A seek to an absolute position within the data lands there, and a read
/// from there gives the bytes from that position on, as many as fit.
pub proof fn law_seek_start_then_read(len: int, cursor: int, p: u64, buf_len: int)
    requires
        0 <= len <= usize::MAX,
        p <= len,
        p <= i64::MAX,
        0 <= buf_len,
    ensures
        spec_seek_target(len, cursor, SeekPosition::Start(p)) == Some(p as int),
        spec_read_count(len, p as int, buf_len) == (if buf_len < len - p { buf_len } else { len - p }),
{
}

/// A seek to the end of the data lands on its length, and a read from
/// there gives nothing.
pub proof fn law_seek_end_then_read(len: int, cursor: int, buf_len: int)
    requires
        0 <= len <= i64::MAX,
        len <= usize::MAX,
    ensures
        spec_seek_target(len, cursor, SeekPosition::End(0)) == Some(len),
        spec_read_count(len, len, buf_len) == 0,
{
}

/// A read gives as many bytes as it can: no more than the buffer holds or
/// the data has left, and either the buffer is filled or the data is used
/// up. Two reads one after the other give as much as one read into a buffer
/// as large as both.
pub proof fn law_read_count(len: int, cursor: int, a: int, b: int)
    requires
        0 <= len,
        0 <= cursor,
        0 <= a,
        0 <= b,
    ensures
        0 <= spec_read_count(len, cursor, a) <= a,
        cursor + spec_read_count(len, cursor, a) <= len || spec_read_count(len, cursor, a) == 0,
        spec_read_count(len, cursor, a) == a || cursor + spec_read_count(len, cursor, a) >= len,
        spec_read_count(len, cursor, a) + spec_read_count(
            len,
            cursor + spec_read_count(len, cursor, a),
            b,
        ) == spec_read_count(len, cursor, a + b),
{
}

/// A seek by an offset from the current position that stays within the
/// positions allowed lands at the cursor moved by the offset, and a seek
/// back by the opposite offset returns to the cursor.
pub proof fn law_seek_current_round_trip(len: int, cursor: int, o: i64)
    requires
        0 <= cursor <= i64::MAX,
        cursor <= usize::MAX,
        0 <= cursor + o <= i64::MAX,
        cursor + o <= usize::MAX,
        o != i64::MIN,
    ensures
        spec_seek_target(len, cursor, SeekPosition::Current(o)) == Some(cursor + o),
        spec_seek_target(len, cursor + o, SeekPosition::Current((-o) as i64)) == Some(cursor),
{
}


} // verus!
