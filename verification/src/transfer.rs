//! The stream transfer engine: moves bytes chunk by chunk between a request
//! and the store. An upload session consumes body chunks strictly in arrival
//! order; a download session emits a stored object strictly in order. Either
//! side advances one chunk at a time, so the caller never buffers more than
//! one chunk beyond what the session itself accumulates.

use vstd::prelude::*;
use crate::response::{response_with_code, Response, STATUS_OK, STATUS_SERVER_ERROR};
use crate::store::Store;
use crate::valid_name;

verus! {

/// Default size of one download chunk, in bytes.
pub const CHUNK_LEN: usize = 4096;

/// Why a transfer failed: the destination object could not be created, or
/// the transport broke mid-stream. The message carries whatever the failing
/// layer reported.
pub enum TransferError {
    Create,
    Io(String),
}

/// Wraps an underlying failure report as a transfer I/O error.
pub fn other(message: String) -> (e: TransferError)
    ensures
        e matches TransferError::Io(m) && m@ == message@,
{
    TransferError::Io(message)
}

/// The response a failed transfer produces: a server error with no body.
pub fn error_response(_e: &TransferError) -> (r: Response)
    ensures
        r.status == STATUS_SERVER_ERROR,
        r.body@ == Seq::<u8>::empty(),
{
    response_with_code(STATUS_SERVER_ERROR)
}

/// An upload in progress: the name the object will be filed under and the
/// bytes received so far. Chunks are appended strictly in arrival order.
pub struct UploadSession {
    name: Vec<u8>,
    data: Vec<u8>,
}

impl UploadSession {
    /// The name the finished object will carry.
    pub closed spec fn name(self) -> Seq<u8> {
        self.name@
    }

    /// The bytes received so far, in arrival order.
    pub closed spec fn written(self) -> Seq<u8> {
        self.data@
    }

    /// The session's name is well formed.
    pub closed spec fn wf(self) -> bool {
        valid_name(self.name@)
    }

    /// Opens an upload that will store its bytes under `name`.
    pub fn begin(name: Vec<u8>) -> (s: UploadSession)
        requires
            valid_name(name@),
        ensures
            s.wf(),
            s.name() == name@,
            s.written() == Seq::<u8>::empty(),
    {
        let s = UploadSession { name, data: Vec::new() };
        proof {
            assert(s.data@ =~= Seq::<u8>::empty());
        }
        s
    }

    /// Appends one body chunk. The chunk lands after everything received
    /// before it, and nothing else changes: arrival order is preserved.
    pub fn push_chunk(&mut self, chunk: &[u8])
        requires
            old(self).wf(),
        ensures
            final(self).wf(),
            final(self).name() == old(self).name(),
            final(self).written() == old(self).written() + chunk@,
    {
        let mut tail = vstd::slice::slice_to_vec(chunk);
        self.data.append(&mut tail);
    }

    /// Completes the upload: files the received bytes under the session's
    /// name and answers 200 with that name as the body.
    pub fn finish(self, store: &mut Store) -> (r: Response)
        requires
            self.wf(),
            old(store).wf(),
        ensures
            final(store).wf(),
            final(store).contents() == old(store).contents().insert(self.name(), self.written()),
            r.status == STATUS_OK,
            r.body@ == self.name(),
    {
        let UploadSession { name, data } = self;
        let body = vstd::slice::slice_to_vec(name.as_slice());
        store.save(name, data);
        Response { status: STATUS_OK, body }
    }

    /// Aborts the upload after a transport failure: the partially received
    /// object stays in the store under the session's name, uncleaned, and
    /// the request fails with a server error.
    pub fn abort(self, store: &mut Store, e: &TransferError) -> (r: Response)
        requires
            self.wf(),
            old(store).wf(),
        ensures
            final(store).wf(),
            final(store).contents() == old(store).contents().insert(self.name(), self.written()),
            r.status == STATUS_SERVER_ERROR,
            r.body@ == Seq::<u8>::empty(),
    {
        let UploadSession { name, data } = self;
        store.save(name, data);
        error_response(e)
    }
}

/// A download in progress: the stored bytes being served and how far
/// emission has advanced. Chunks come out strictly in storage order.
pub struct DownloadSession {
    data: Vec<u8>,
    pos: usize,
}

impl DownloadSession {
    /// The whole object being served.
    pub closed spec fn object(self) -> Seq<u8> {
        self.data@
    }

    /// The bytes emitted so far: always a prefix of the object.
    pub closed spec fn emitted(self) -> Seq<u8> {
        self.data@.take(self.pos as int)
    }

    /// Emission never runs past the end of the object.
    pub closed spec fn wf(self) -> bool {
        self.pos <= self.data@.len()
    }

    /// Opens the object filed under `name` for streaming, or reports that no
    /// such object exists. Opening reads the store and changes nothing.
    pub fn open(store: &Store, name: &[u8]) -> (r: Option<DownloadSession>)
        ensures
            r is Some <==> store.contents().contains_key(name@),
            r matches Some(s) ==> s.wf() && s.object() == store.contents()[name@] && s.emitted()
                == Seq::<u8>::empty(),
    {
        match store.load(name) {
            Some(data) => Some(DownloadSession { data, pos: 0 }),
            None => None,
        }
    }

    /// Emits the next chunk of at most `max_len` bytes, or `None` once the
    /// whole object has been emitted. Every emitted chunk is non-empty and
    /// extends the emission in storage order.
    pub fn next_chunk(&mut self, max_len: usize) -> (c: Option<Vec<u8>>)
        requires
            old(self).wf(),
            max_len > 0,
        ensures
            final(self).wf(),
            final(self).object() == old(self).object(),
            c is Some <==> old(self).emitted().len() < old(self).object().len(),
            c matches Some(chunk) ==> chunk@.len() > 0 && final(self).emitted() == old(
                self,
            ).emitted() + chunk@,
            c is None ==> final(self).emitted() == old(self).emitted(),
    {
        if self.pos == self.data.len() {
            return None;
        }
        let remaining = self.data.len() - self.pos;
        let step = if max_len < remaining {
            max_len
        } else {
            remaining
        };
        let end = self.pos + step;
        let chunk_slice = vstd::slice::slice_subrange(self.data.as_slice(), self.pos, end);
        let chunk = vstd::slice::slice_to_vec(chunk_slice);
        let ghost before = self.pos as int;
        self.pos = end;
        proof {
            assert(self.data@.take(end as int) =~= self.data@.take(before) + self.data@.subrange(
                before,
                end as int,
            ));
        }
        Some(chunk)
    }

    /// Emits everything not yet emitted, as one byte string, leaving the
    /// session fully drained.
    pub fn drain(&mut self) -> (body: Vec<u8>)
        requires
            old(self).wf(),
        ensures
            final(self).wf(),
            final(self).object() == old(self).object(),
            old(self).emitted() + body@ == old(self).object(),
            final(self).emitted() == final(self).object(),
    {
        let mut body: Vec<u8> = Vec::new();
        let mut done = false;
        proof {
            assert(old(self).emitted() + body@ =~= self.emitted());
        }
        while !done
            invariant
                self.wf(),
                self.object() == old(self).object(),
                old(self).emitted() + body@ == self.emitted(),
                done ==> self.emitted() == self.object(),
            decreases self.object().len() - self.emitted().len() + (if done {
                0int
            } else {
                1int
            }),
        {
            match self.next_chunk(CHUNK_LEN) {
                Some(mut chunk) => {
                    body.append(&mut chunk);
                    proof {
                        assert(old(self).emitted() + body@ =~= self.emitted());
                    }
                },
                None => {
                    done = true;
                },
            }
        }
        proof {
            assert(self.emitted() =~= self.object());
        }
        body
    }
}

} // verus!
