//! HTTP byte-range semantics: parsing a `Range` header value, planning the
//! response (full content or a partial window), and bounding what a stream
//! may emit to that window.

use vstd::prelude::*;
use crate::text::{
    all_digits, dec_of, dec_u64, digits_val, has_prefix, parse_u64, parses_to_u64, str_has_prefix,
};
use vstd::string::StrSliceExecFns;

verus! {

/// The position of the first `'-'` at or after `i`, if any.
pub open spec fn first_dash_from(s: Seq<char>, i: int) -> Option<int>
    decreases s.len() - i,
{
    if i < 0 || i >= s.len() {
        None
    } else if s[i] == '-' {
        Some(i)
    } else {
        first_dash_from(s, i + 1)
    }
}

/// The value after `bytes=` is split on `'-'`: the first segment is the
/// start, the second the end. An absent or empty second segment means "to
/// the end of the file". Any segment that is not a numeral, a start past
/// the end, or an end at or past the file size yields `None`, and the
/// caller falls back to a full response; a third segment (as in a
/// multi-range request) is ignored outright, so such requests mis-parse on
/// their second segment and fall back too.
pub open spec fn spec_parse_range(s: Seq<char>, file_size: u64) -> Option<(u64, u64)> {
    let (left, right) = match first_dash_from(s, 0) {
        None => (s, Seq::<char>::empty()),
        Some(i) => (
            s.subrange(0, i),
            match first_dash_from(s, i + 1) {
                None => s.subrange(i + 1, s.len() as int),
                Some(j) => s.subrange(i + 1, j),
            },
        ),
    };
    if !parses_to_u64(left) {
        None
    } else {
        let start = digits_val(left);
        let end_opt: Option<nat> = if right.len() == 0 {
            if file_size > 0 {
                Some((file_size - 1) as nat)
            } else {
                None
            }
        } else if parses_to_u64(right) {
            Some(digits_val(right))
        } else {
            None
        };
        match end_opt {
            None => None,
            Some(end) => if start <= end && end < file_size {
                Some((start as u64, end as u64))
            } else {
                None
            },
        }
    }
}

/// Find the first `'-'` at or after `from`, as `first_dash_from` describes.
fn find_dash(s: &str, from: usize) -> (r: Option<usize>)
    requires
        from <= s@.len(),
    ensures
        match r {
            Some(i) => from <= i < s@.len() && Some(i as int) == first_dash_from(s@, from as int),
            None => first_dash_from(s@, from as int) is None,
        },
{
    let n: usize = s.unicode_len();
    let mut i: usize = from;
    while i < n
        invariant
            from <= i <= n,
            n == s@.len(),
            first_dash_from(s@, from as int) == first_dash_from(s@, i as int),
        decreases n - i,
    {
        if s.get_char(i) == '-' {
            return Some(i);
        }
        i = i + 1;
    }
    None
}

/// Parse a `Range` value (the part after `bytes=`) against the file size,
/// returning the inclusive window exactly as `spec_parse_range` describes.
pub fn parse_range(range_str: &str, file_size: u64) -> (r: Option<(u64, u64)>)
    ensures
        r == spec_parse_range(range_str@, file_size),
{
    let n: usize = range_str.unicode_len();
    let start_val: u64;
    let end_val: u64;
    match find_dash(range_str, 0) {
        None => {
            match parse_u64(range_str) {
                None => {
                    return None;
                },
                Some(v) => {
                    start_val = v;
                },
            }
            if file_size == 0 {
                return None;
            }
            end_val = file_size - 1;
        },
        Some(i) => {
            let left = range_str.substring_char(0, i);
            match parse_u64(left) {
                None => {
                    return None;
                },
                Some(v) => {
                    start_val = v;
                },
            }
            let right_end: usize = match find_dash(range_str, i + 1) {
                None => n,
                Some(j) => j,
            };
            let right = range_str.substring_char(i + 1, right_end);
            if right.unicode_len() == 0 {
                if file_size == 0 {
                    return None;
                }
                end_val = file_size - 1;
            } else {
                match parse_u64(right) {
                    None => {
                        return None;
                    },
                    Some(v) => {
                        end_val = v;
                    },
                }
            }
        },
    }
    if start_val <= end_val && end_val < file_size {
        Some((start_val, end_val))
    } else {
        None
    }
}

/// A range accepted by the parser always lies within the file: the start
/// is at most the end, and the end is before the file size.
pub proof fn lemma_parse_range_in_bounds(s: Seq<char>, file_size: u64, start: u64, end: u64)
    requires
        spec_parse_range(s, file_size) == Some((start, end)),
    ensures
        start <= end < file_size,
{
}

/// How a request is answered: the status code, the offset of the first
/// byte sent, and how many bytes are sent. A missing, malformed or
/// out-of-bounds `Range` header yields the whole file with status 200; a
/// valid one yields the requested window with status 206.
pub open spec fn spec_stream_plan(file_size: u64, header: Option<Seq<char>>) -> (u16, u64, u64) {
    match header {
        None => (200u16, 0u64, file_size),
        Some(h) => if has_prefix(h, "bytes="@) {
            match spec_parse_range(h.skip(6), file_size) {
                Some((start, end)) => (206u16, start, (end - start + 1) as u64),
                None => (200u16, 0u64, file_size),
            }
        } else {
            (200u16, 0u64, file_size)
        },
    }
}

/// The response plan for one request: the status code and the byte window
/// `[start, start + length)` of the file that the body must carry.
pub struct StreamPlan {
    pub status: u16,
    pub start: u64,
    pub length: u64,
}

/// Decide status and byte window from the file size and the raw `Range`
/// header, exactly as `spec_stream_plan` describes. The window always lies
/// within the file.
pub fn stream_plan(file_size: u64, range_header: Option<&str>) -> (p: StreamPlan)
    ensures
        (p.status, p.start, p.length) == spec_stream_plan(
            file_size,
            match range_header {
                Some(h) => Some(h@),
                None => None,
            },
        ),
        p.start + p.length <= file_size,
        p.status == 200 || p.status == 206,
{
    proof {
        reveal_strlit("bytes=");
    }
    match range_header {
        None => StreamPlan { status: 200, start: 0, length: file_size },
        Some(h) => {
            if str_has_prefix(h, "bytes=") {
                let rest = h.substring_char(6, h.unicode_len());
                proof {
                    assert(rest@ =~= h@.skip(6));
                }
                match parse_range(rest, file_size) {
                    Some((start, end)) => StreamPlan {
                        status: 206,
                        start,
                        length: end - start + 1,
                    },
                    None => StreamPlan { status: 200, start: 0, length: file_size },
                }
            } else {
                StreamPlan { status: 200, start: 0, length: file_size }
            }
        },
    }
}

/// A malformed or out-of-bounds range specifier falls back to the full
/// file: whenever the parser rejects the value after `bytes=`, the plan is
/// a 200 with the whole file, as if no `Range` header had been sent.
pub proof fn lemma_invalid_range_falls_back(file_size: u64, h: Seq<char>)
    requires
        !has_prefix(h, "bytes="@) || spec_parse_range(h.skip(6), file_size) is None,
    ensures
        spec_stream_plan(file_size, Some(h)) == spec_stream_plan(file_size, None::<Seq<char>>),
        spec_stream_plan(file_size, Some(h)) == (200u16, 0u64, file_size),
{
}

/// The window of `bytes` that a plan's body must carry.
pub open spec fn plan_window(bytes: Seq<u8>, start: u64, length: u64) -> Seq<u8> {
    bytes.subrange(start as int, start as int + length as int)
}

/// A valid range is honored exactly: the response is a 206 whose declared
/// length is `end - start + 1` and whose body window is precisely the
/// file's `[start, end]` slice.
pub proof fn lemma_partial_content_exact(bytes: Seq<u8>, h: Seq<char>, start: u64, end: u64)
    requires
        bytes.len() <= u64::MAX,
        has_prefix(h, "bytes="@),
        spec_parse_range(h.skip(6), bytes.len() as u64) == Some((start, end)),
    ensures
        spec_stream_plan(bytes.len() as u64, Some(h)) == (206u16, start, (end - start + 1) as u64),
        plan_window(bytes, start, (end - start + 1) as u64) =~= bytes.subrange(
            start as int,
            end as int + 1,
        ),
        start + (end - start + 1) <= bytes.len(),
{
}

/// Copy the planned window out of an in-memory file image: exactly the
/// bytes from `start` to `start + length`, in order.
pub fn window_slice(bytes: &Vec<u8>, start: u64, length: u64) -> (r: Vec<u8>)
    requires
        start + length <= bytes@.len(),
    ensures
        r@ == plan_window(bytes@, start, length),
{
    let n: usize = bytes.len();
    proof {
        assert(start <= n as u64 && length <= n as u64);
    }
    let s: usize = start as usize;
    let l: usize = length as usize;
    let mut out: Vec<u8> = Vec::new();
    let mut k: usize = 0;
    while k < l
        invariant
            0 <= k <= l,
            s == start,
            l == length,
            s + l <= n,
            n == bytes@.len(),
            out@ =~= bytes@.subrange(s as int, s as int + k as int),
        decreases l - k,
    {
        out.push(bytes[s + k]);
        proof {
            assert(out@ =~= bytes@.subrange(s as int, s as int + k + 1));
        }
        k = k + 1;
    }
    proof {
        assert(out@ =~= plan_window(bytes@, start, length));
    }
    out
}

/// Running account of a bounded window being emitted chunk by chunk: at
/// most `total` bytes ever leave, however much each read returns.
pub struct WindowProgress {
    pub total: u64,
    pub emitted: u64,
}

impl WindowProgress {
    /// The account never records more than the window's length.
    pub open spec fn wf(&self) -> bool {
        self.emitted <= self.total
    }

    /// Start an account for a window of `total` bytes.
    pub fn new(total: u64) -> (r: WindowProgress)
        ensures
            r.wf(),
            r.total == total,
            r.emitted == 0,
    {
        WindowProgress { total, emitted: 0 }
    }

    /// How many bytes may still be emitted.
    pub fn remaining(&self) -> (r: u64)
        requires
            self.wf(),
        ensures
            r == self.total - self.emitted,
    {
        self.total - self.emitted
    }

    /// Given a chunk of `available` bytes read from the file, how many of
    /// them to emit: all of them while they fit, and only what is left of
    /// the window otherwise, so the running total never passes the bound.
    pub fn advance(&mut self, available: u64) -> (r: u64)
        requires
            old(self).wf(),
        ensures
            final(self).wf(),
            r == if available <= old(self).total - old(self).emitted {
                available
            } else {
                (old(self).total - old(self).emitted) as u64
            },
            final(self).total == old(self).total,
            final(self).emitted == old(self).emitted + r,
    {
        let left: u64 = self.total - self.emitted;
        let take: u64 = if available <= left {
            available
        } else {
            left
        };
        self.emitted = self.emitted + take;
        take
    }

    /// The whole window has been emitted.
    pub fn done(&self) -> (r: bool)
        ensures
            r == (self.emitted == self.total),
    {
        self.emitted == self.total
    }
}

/// The `Content-Range` header value for a partial response: the inclusive
/// window and the full size, as `bytes <start>-<end>/<size>`.
pub fn content_range_value(start: u64, end: u64, file_size: u64) -> (r: String)
    ensures
        r@ == "bytes "@ + dec_of(start as nat) + "-"@ + dec_of(end as nat) + "/"@ + dec_of(
            file_size as nat,
        ),
{
    let mut out = String::from_str("bytes ");
    out.append(dec_u64(start).as_str());
    out.append("-");
    out.append(dec_u64(end).as_str());
    out.append("/");
    out.append(dec_u64(file_size).as_str());
    out
}

} // verus!
