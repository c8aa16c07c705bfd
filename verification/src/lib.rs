//! A remote HTTP resource exposed as a random-access byte stream.
//!
//! Callers `read` and `seek` against a remote resource as if it were a
//! local file; each read is satisfied by one HTTP byte-range request. The
//! library holds the verified core: validating the capability probe that
//! discovers the resource's size, the three-state machine that turns a
//! `read` call into a byte-range request and delivers its bytes, and the
//! pure `seek` arithmetic. The network transport and the asynchronous
//! plumbing that drive this core live outside the library: they hand in
//! plain values (header bytes, response events, byte counts) and act on
//! the plain values (byte ranges, error values) handed back.

use vstd::prelude::*;

mod error;
mod parse;

pub use error::RemoteIoError;
pub use parse::parse_content_length;
use parse::parsed_len;

verus! {

/// Where a seek offset is measured from, as in an ordinary file interface:
/// the start of the resource, its end, or the current position.
#[derive(Clone, Copy, Debug, PartialEq, Eq, Structural)]
pub enum SeekFrom {
    /// Absolute position.
    Start(u64),
    /// Signed offset relative to the resource's total length.
    End(i64),
    /// Signed offset relative to the current position.
    Current(i64),
}

/// The request state machine of the virtual file. At most one range
/// request is ever in flight; `start` and `end` are the inclusive byte
/// range that the in-flight request targets.
#[derive(Clone, Copy, Debug, PartialEq, Eq, Structural)]
pub enum RequestState {
    /// No request outstanding: the initial state, and the state between
    /// completed operations.
    Idle,
    /// A range request has been sent; its response headers have not
    /// arrived yet.
    AwaitingResponse { start: u64, end: u64 },
    /// Response headers have arrived; body bytes may be pulled.
    StreamingBody { start: u64, end: u64 },
}

/// What a `read` call asks its driver to do next.
#[derive(Clone, Copy, Debug, PartialEq, Eq, Structural)]
pub enum ReadStart {
    /// The position is at or past the end of the resource: the read
    /// completes at once with zero bytes and no request is issued.
    Empty,
    /// Issue a range request for the inclusive byte range `[start, end]`.
    Range { start: u64, end: u64 },
}

/// The resolved seek target as an unbounded integer; the seek succeeds
/// exactly when this value fits in `0..=u64::MAX`.
pub open spec fn seek_target(content_size: u64, pos: u64, origin: SeekFrom) -> int {
    match origin {
        SeekFrom::Start(p) => p as int,
        SeekFrom::End(off) => content_size + off,
        SeekFrom::Current(off) => pos + off,
    }
}

/// The inclusive end of the range a read of `len` bytes at `pos` targets:
/// the last byte the buffer could take, clipped to the last byte the
/// resource has.
pub open spec fn read_range_end(content_size: u64, pos: u64, len: usize) -> int
    recommends
        pos < content_size,
        len >= 1,
{
    if pos + len - 1 <= content_size - 1 {
        pos + len - 1
    } else {
        content_size - 1
    }
}

/// The bytes a transport that honors range requests returns for a request
/// targeting the inclusive range `[start, end]` of `resource`.
pub open spec fn range_body(resource: Seq<u8>, start: u64, end: int) -> Seq<u8>
    recommends
        start <= end < resource.len(),
{
    resource.subrange(start as int, end + 1)
}

/// A remote resource viewed as a random-access byte stream.
///
/// Construction validates a capability probe; afterwards the value is
/// mutated in place by every `read` and `seek`. The identity (`url`) and
/// the total length (`content_size`) are fixed at construction; `pos` is
/// the logical cursor, moved only by `seek` and by delivered bytes, never
/// by network activity that has not delivered bytes.
pub struct RemoteIO {
    url: String,
    content_size: u64,
    pos: u64,
    state: RequestState,
}

impl RemoteIO {
    /// The resource's identity, fixed at construction.
    pub closed spec fn spec_url(self) -> Seq<char> {
        self.url@
    }

    /// The resource's total byte length, fixed at construction.
    pub closed spec fn spec_content_size(self) -> u64 {
        self.content_size
    }

    /// The logical read/seek cursor.
    pub closed spec fn spec_pos(self) -> u64 {
        self.pos
    }

    /// The request state machine's current state.
    pub closed spec fn spec_state(self) -> RequestState {
        self.state
    }

    /// Well-formedness: an in-flight request targets a non-empty range
    /// that starts at the current position and ends inside the resource.
    pub open spec fn wf(self) -> bool {
        match self.spec_state() {
            RequestState::Idle => true,
            RequestState::AwaitingResponse { start, end } => start == self.spec_pos() && start
                <= end < self.spec_content_size(),
            RequestState::StreamingBody { start, end } => start == self.spec_pos() && start <= end
                < self.spec_content_size(),
        }
    }

    /// Validates a capability probe and constructs the virtual file.
    ///
    /// The caller performs the single metadata request and hands in the
    /// raw values of the range-support and resource-length headers, or
    /// `None` for a header the response lacks. Absent range support fails
    /// with `NotSeekable`; an absent or unparseable length fails with
    /// `NoContentSize`. On success the cursor starts at `0` with no
    /// request outstanding.
    pub fn new(url: String, accept_ranges: Option<Vec<u8>>, content_length: Option<Vec<u8>>) -> (r:
        Result<RemoteIO, RemoteIoError>)
        ensures
            accept_ranges is None ==> (r matches Err(e) && e is NotSeekable),
            accept_ranges is Some && parsed_header_len(content_length) is None ==> (r matches Err(e)
                && e is NoContentSize),
            accept_ranges is Some ==> (parsed_header_len(content_length) matches Some(n) ==> (r
                matches Ok(f) && f.wf() && f.spec_url() == url@ && f.spec_content_size() == n
                && f.spec_pos() == 0 && f.spec_state() is Idle)),
    {
        if accept_ranges.is_none() {
            return Err(RemoteIoError::NotSeekable);
        }
        let size: Option<u64> = match &content_length {
            Some(b) => parse_content_length(b.as_slice()),
            None => None,
        };
        match size {
            Some(content_size) => Ok(
                RemoteIO { url, content_size, pos: 0, state: RequestState::Idle },
            ),
            None => Err(RemoteIoError::NoContentSize),
        }
    }

    /// The resource's total byte length.
    pub fn content_size(&self) -> (r: u64)
        ensures
            r == self.spec_content_size(),
    {
        self.content_size
    }

    /// The current logical position.
    pub fn position(&self) -> (r: u64)
        ensures
            r == self.spec_pos(),
    {
        self.pos
    }

    /// The resource's identity.
    pub fn url(&self) -> (r: &String)
        ensures
            r@ == self.spec_url(),
    {
        &self.url
    }

    /// The request state machine's current state.
    pub fn state(&self) -> (r: RequestState)
        ensures
            r == self.spec_state(),
    {
        self.state
    }

    /// Moves the cursor: a pure position update with no network effect.
    ///
    /// Returns the new absolute position. A target outside `0..=u64::MAX`
    /// fails with `InvalidArgument` and changes nothing. A successful
    /// seek discards any in-flight request state, so the next read issues
    /// a fresh request at the new position; the driver must drop the
    /// in-flight request it holds alongside.
    pub fn seek(&mut self, origin: SeekFrom) -> (r: Result<u64, RemoteIoError>)
        requires
            old(self).wf(),
        ensures
            final(self).wf(),
            final(self).spec_content_size() == old(self).spec_content_size(),
            final(self).spec_url() == old(self).spec_url(),
            ({
                let t = seek_target(old(self).spec_content_size(), old(self).spec_pos(), origin);
                if 0 <= t <= u64::MAX {
                    r matches Ok(p) && p == t && final(self).spec_pos() == t
                        && final(self).spec_state() is Idle
                } else {
                    r matches Err(e) && e is InvalidArgument && *final(self) == *old(self)
                }
            }),
    {
        let target: Option<u64> = match origin {
            SeekFrom::Start(p) => Some(p),
            SeekFrom::End(off) => offset_from(self.content_size, off),
            SeekFrom::Current(off) => offset_from(self.pos, off),
        };
        match target {
            Some(p) => {
                self.pos = p;
                self.state = RequestState::Idle;
                Ok(p)
            },
            None => Err(RemoteIoError::InvalidArgument),
        }
    }

    /// Starts a read into a buffer of `buf_len` bytes.
    ///
    /// A zero-length buffer fails with `InvalidArgument`. At or past the
    /// end of the resource the read completes at once with zero bytes and
    /// no request. Otherwise the read targets the inclusive range from
    /// the current position to [`read_range_end`], the state machine
    /// moves to `AwaitingResponse`, and the caller must issue the range
    /// request and drive it: the position does not move until bytes are
    /// delivered by [`Self::finish_read`].
    pub fn begin_read(&mut self, buf_len: usize) -> (r: Result<ReadStart, RemoteIoError>)
        requires
            old(self).wf(),
            old(self).spec_state() is Idle,
        ensures
            final(self).wf(),
            final(self).spec_content_size() == old(self).spec_content_size(),
            final(self).spec_url() == old(self).spec_url(),
            final(self).spec_pos() == old(self).spec_pos(),
            buf_len == 0 ==> (r matches Err(e) && e is InvalidArgument
                && *final(self) == *old(self)),
            buf_len >= 1 && old(self).spec_pos() >= old(self).spec_content_size() ==> (r matches Ok(s)
                && s is Empty && *final(self) == *old(self)),
            buf_len >= 1 && old(self).spec_pos() < old(self).spec_content_size() ==> ({
                let start = old(self).spec_pos();
                let end = read_range_end(old(self).spec_content_size(), start, buf_len);
                r matches Ok(s) && s == (ReadStart::Range { start, end: end as u64 })
                    && final(self).spec_state() == (RequestState::AwaitingResponse {
                    start,
                    end: end as u64,
                })
            }),
    {
        if buf_len == 0 {
            return Err(RemoteIoError::InvalidArgument);
        }
        if self.pos >= self.content_size {
            return Ok(ReadStart::Empty);
        }
        let last: u64 = self.content_size - 1;
        let avail: u64 = last - self.pos;
        let want: u64 = (buf_len - 1) as u64;
        let end: u64 = if want <= avail {
            self.pos + want
        } else {
            last
        };
        self.state = RequestState::AwaitingResponse { start: self.pos, end };
        Ok(ReadStart::Range { start: self.pos, end })
    }

    /// Records that the in-flight request's response headers arrived:
    /// body bytes may now be pulled. Nothing else changes.
    pub fn headers_received(&mut self)
        requires
            old(self).wf(),
            old(self).spec_state() is AwaitingResponse,
        ensures
            final(self).wf(),
            final(self).spec_content_size() == old(self).spec_content_size(),
            final(self).spec_url() == old(self).spec_url(),
            final(self).spec_pos() == old(self).spec_pos(),
            old(self).spec_state() matches RequestState::AwaitingResponse { start, end }
                ==> final(self).spec_state() == (RequestState::StreamingBody { start, end }),
    {
        match self.state {
            RequestState::AwaitingResponse { start, end } => {
                self.state = RequestState::StreamingBody { start, end };
            },
            _ => {},
        }
    }

    /// Completes the read: `count` bytes of the streamed body were
    /// delivered into the caller's buffer. Advances the position by
    /// exactly the delivered count, returns it, and goes back to `Idle`.
    /// A short count is allowed; the count can never exceed the size of
    /// the in-flight range.
    pub fn finish_read(&mut self, count: usize) -> (r: usize)
        requires
            old(self).wf(),
            old(self).spec_state() matches RequestState::StreamingBody { start, end } && count
                <= end - start + 1,
        ensures
            final(self).wf(),
            final(self).spec_content_size() == old(self).spec_content_size(),
            final(self).spec_url() == old(self).spec_url(),
            final(self).spec_state() is Idle,
            final(self).spec_pos() == old(self).spec_pos() + count,
            final(self).spec_pos() <= final(self).spec_content_size(),
            r == count,
    {
        let c: u64 = count as u64;
        self.pos = self.pos + c;
        self.state = RequestState::Idle;
        count
    }

    /// Converts a transport failure that surfaced while a read was in
    /// flight into the recoverable error value handed back to the caller,
    /// and discards the in-flight state: the failure never terminates the
    /// process, and the next read starts fresh from the unchanged
    /// position.
    pub fn fail_read(&mut self, message: String) -> (r: RemoteIoError)
        requires
            old(self).wf(),
        ensures
            final(self).wf(),
            final(self).spec_content_size() == old(self).spec_content_size(),
            final(self).spec_url() == old(self).spec_url(),
            final(self).spec_pos() == old(self).spec_pos(),
            final(self).spec_state() is Idle,
            r matches RemoteIoError::ReadError(m) && m@ == message@,
    {
        self.state = RequestState::Idle;
        RemoteIoError::ReadError(message)
    }
}

/// What the probe's length header parses to, if it was present at all.
pub open spec fn parsed_header_len(h: Option<Vec<u8>>) -> Option<u64> {
    match h {
        Some(b) => parsed_len(b@),
        None => None,
    }
}

/// Law: seeking to absolute position `p` and then reading `l` bytes, with
/// `p + l` within the resource, targets exactly the inclusive byte range
/// `[p, p + l - 1]`, so a transport that honors range requests answers
/// with exactly bytes `[p, p + l)` of the resource.
pub proof fn lemma_seek_then_read_exact(resource: Seq<u8>, pos0: u64, p: u64, l: usize)
    requires
        l >= 1,
        p + l <= resource.len(),
        resource.len() <= u64::MAX,
    ensures
        seek_target(resource.len() as u64, pos0, SeekFrom::Start(p)) == p,
        read_range_end(resource.len() as u64, p, l) == p + l - 1,
        range_body(resource, p, read_range_end(resource.len() as u64, p, l)) =~= resource.subrange(
            p as int,
            p + l,
        ),
{
}

/// Law: `seek(End, 0)` lands on `content_size`, and a following
/// `seek(Current, -content_size)` lands on position `0`. Both targets lie
/// in `0..=u64::MAX`, so by the contract of [`RemoteIO::seek`] both calls
/// succeed and return those positions. The second offset is representable
/// only while `content_size` fits in `i64`.
pub proof fn lemma_seek_end_roundtrip(content_size: u64, pos0: u64)
    requires
        content_size <= i64::MAX,
    ensures
        seek_target(content_size, pos0, SeekFrom::End(0)) == content_size,
        0 <= seek_target(content_size, pos0, SeekFrom::End(0)) <= u64::MAX,
        seek_target(
            content_size,
            content_size,
            SeekFrom::Current((-(content_size as int)) as i64),
        ) == 0,
{
}

/// Law: the first read after construction, with no seek in between,
/// starts at position `0`: against a transport that honors range
/// requests it returns exactly the first `min(l, content_size)` bytes of
/// the resource.
pub proof fn lemma_first_read_is_prefix(resource: Seq<u8>, l: usize)
    requires
        l >= 1,
        1 <= resource.len() <= u64::MAX,
    ensures
        range_body(resource, 0, read_range_end(resource.len() as u64, 0, l)) =~= resource.take(
            if l <= resource.len() {
                l as int
            } else {
                resource.len() as int
            },
        ),
{
}

/// Adds a signed offset to an unsigned position, failing exactly when
/// the result falls outside `0..=u64::MAX`.
fn offset_from(base: u64, off: i64) -> (r: Option<u64>)
    ensures
        ({
            let t = base + off;
            if 0 <= t <= u64::MAX {
                r == Some(t as u64)
            } else {
                r is None
            }
        }),
{
    if off >= 0 {
        let o: u64 = off as u64;
        if o <= u64::MAX - base {
            Some(base + o)
        } else {
            None
        }
    } else {
        let m: u64 = if off == i64::MIN {
            9223372036854775808
        } else {
            (-off) as u64
        };
        if m <= base {
            Some(base - m)
        } else {
            None
        }
    }
}

} // verus!
