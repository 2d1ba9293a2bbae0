//! The upload state machine: from the file length and the bytes committed so
//! far, decide which request to issue next.  The surrounding client performs
//! each request and feeds the server's answer back in.

use vstd::prelude::*;
use crate::chunks::chunk_lengths;
use crate::MAX_BODY_SIZE;
use crate::MAX_FILE_SIZE;
use crate::protocol::Upload;
use crate::protocol::USAppend;
use crate::protocol::USCursor;
use crate::protocol::USFinish;

verus! {

/// How one upload fails.  The orchestrator itself only ever rejects a file
/// for its size; the remaining kinds classify failures of the local reads,
/// the transport and the response decoding that the surrounding client
/// performs.
#[derive(Clone, Copy, Debug, PartialEq, Eq, Structural)]
pub enum UploadError {
    /// The file exceeds `MAX_FILE_SIZE`; nothing was sent.
    FileTooLarge,
    /// A local file seek or read failed.
    Io,
    /// The transport failed to carry a request.
    Transport,
    /// A response did not decode into the shape the current step expects.
    Protocol,
}

/// A bounded read window over the source file: `len` bytes starting at byte
/// `start`, at most `MAX_BODY_SIZE` long.
#[derive(Clone, Copy, Debug, PartialEq, Eq, Structural)]
pub struct ChunkWindow {
    pub start: u64,
    pub len: u64,
}

impl ChunkWindow {
    /// The window stays inside a `total`-byte file and inside one request
    /// body.
    pub open spec fn fits(self, total: u64) -> bool {
        &&& self.start + self.len <= total
        &&& self.len <= MAX_BODY_SIZE
    }
}

/// One request the orchestrator asks the surrounding client to issue: which
/// wire operation, with which metadata, carrying which window of the file.
pub enum UploadAction {
    /// The whole file in one request, committed directly.
    Simple { commit: Upload, window: ChunkWindow },
    /// Open an upload session with the first window; the response carries the
    /// session id.
    Start { window: ChunkWindow },
    /// Append one full window to the session named by the cursor.
    Append { arg: USAppend, window: ChunkWindow },
    /// Close the session: commit the remaining bytes under the target path.
    Finish { arg: USFinish, window: ChunkWindow },
}

/// Drives one upload of a file of `total_len` bytes.  The session cursor is
/// threaded explicitly through the calls; no state outlives the upload.
pub struct UploadOrchestrator {
    pub total_len: u64,
}

impl UploadOrchestrator {
    /// The orchestrator only exists for files under the absolute cap.
    pub open spec fn wf(self) -> bool {
        self.total_len <= MAX_FILE_SIZE
    }

    /// The file fits in a single request body, so a single request uploads
    /// it; the boundary case belongs to the single-shot path.
    pub open spec fn single_shot(self) -> bool {
        self.total_len <= MAX_BODY_SIZE
    }

    /// A live session cursor: the acknowledged offset is a whole number of
    /// full bodies, at least one of them, and bytes remain to be sent.
    pub open spec fn cursor_ok(self, c: USCursor) -> bool {
        &&& MAX_BODY_SIZE <= c.offset < self.total_len
        &&& c.offset as int % (MAX_BODY_SIZE as int) == 0
    }

    /// Admits a file for upload, or rejects it with `FileTooLarge` before
    /// anything is read or sent: exactly the files over `MAX_FILE_SIZE` are
    /// rejected.
    pub fn new(total_len: u64) -> (r: Result<UploadOrchestrator, UploadError>)
        ensures
            r is Ok <==> total_len <= MAX_FILE_SIZE,
            r matches Ok(orch) ==> orch.total_len == total_len && orch.wf(),
            r matches Err(e) ==> e == UploadError::FileTooLarge,
    {
        if total_len > MAX_FILE_SIZE {
            Err(UploadError::FileTooLarge)
        } else {
            Ok(UploadOrchestrator { total_len })
        }
    }

    /// Whether the single-shot path applies.
    pub fn is_single_shot(&self) -> (b: bool)
        ensures
            b == self.single_shot(),
    {
        self.total_len <= MAX_BODY_SIZE
    }

    /// The bounded read window at `off`: at most `MAX_BODY_SIZE` bytes,
    /// truncated at end of file, never reaching past it.
    pub fn window_at(&self, off: u64) -> (w: ChunkWindow)
        requires
            self.wf(),
            off <= self.total_len,
        ensures
            w.start == off,
            w.len == if self.total_len - off < MAX_BODY_SIZE {
                self.total_len - off
            } else {
                MAX_BODY_SIZE as int
            },
            w.fits(self.total_len),
    {
        let remaining: u64 = self.total_len - off;
        let len: u64 = if remaining < MAX_BODY_SIZE {
            remaining
        } else {
            MAX_BODY_SIZE
        };
        ChunkWindow { start: off, len }
    }

    /// The one request of the single-shot path: the whole file in one body,
    /// committed under the target.
    pub fn simple_action(&self, target: Upload) -> (a: UploadAction)
        requires
            self.wf(),
            self.single_shot(),
        ensures
            a matches UploadAction::Simple { commit, window } && commit == target && window == (
            ChunkWindow { start: 0, len: self.total_len }) && window.len == chunk_lengths(
                0,
                self.total_len as int,
            )[0],
    {
        proof {
            assert(chunk_lengths(0, self.total_len as int) =~= seq![self.total_len as int]);
        }
        let window = self.window_at(0);
        UploadAction::Simple { commit: target, window }
    }

    /// The opening request of the session path: the first full body.
    pub fn start_action(&self) -> (a: UploadAction)
        requires
            self.wf(),
            !self.single_shot(),
        ensures
            a matches UploadAction::Start { window } && window == (ChunkWindow {
                start: 0,
                len: MAX_BODY_SIZE,
            }) && window.len == chunk_lengths(0, self.total_len as int)[0],
    {
        let window = self.window_at(0);
        UploadAction::Start { window }
    }

    /// Turns the session id the start call returned into the live cursor:
    /// the server has acknowledged exactly the first full body.
    pub fn start_cursor(&self, session_id: String) -> (c: USCursor)
        requires
            self.wf(),
            !self.single_shot(),
        ensures
            c.session_id == session_id,
            c.offset == MAX_BODY_SIZE,
            self.cursor_ok(c),
    {
        USCursor { session_id, offset: MAX_BODY_SIZE }
    }

    /// Whether another full-body append is due.  When this returns false the
    /// loop is over: `offset + MAX_BODY_SIZE` has reached `total_len` and at
    /// most one body of bytes remains for the finish call.
    pub fn needs_append(&self, c: &USCursor) -> (b: bool)
        requires
            self.wf(),
            self.cursor_ok(*c),
        ensures
            b <==> c.offset + MAX_BODY_SIZE < self.total_len,
    {
        c.offset + MAX_BODY_SIZE < self.total_len
    }

    /// The next append request: one full body at the cursor's offset, under
    /// the cursor's session.
    pub fn append_action(&self, c: &USCursor) -> (a: UploadAction)
        requires
            self.wf(),
            self.cursor_ok(*c),
            c.offset + MAX_BODY_SIZE < self.total_len,
        ensures
            a matches UploadAction::Append { arg, window } && arg.cursor == *c && window == (
            ChunkWindow { start: c.offset, len: MAX_BODY_SIZE }) && window.len == chunk_lengths(
                c.offset as int,
                self.total_len as int,
            )[0],
    {
        let window = self.window_at(c.offset);
        let cursor = USCursor { session_id: c.session_id.clone(), offset: c.offset };
        UploadAction::Append { arg: USAppend { cursor }, window }
    }

    /// Commits one acknowledged append: the offset advances by exactly the
    /// full body just sent, and the cursor stays live.
    pub fn advance(&self, c: USCursor) -> (r: USCursor)
        requires
            self.wf(),
            self.cursor_ok(c),
            c.offset + MAX_BODY_SIZE < self.total_len,
        ensures
            r.session_id == c.session_id,
            r.offset == c.offset + MAX_BODY_SIZE,
            self.cursor_ok(r),
    {
        let offset: u64 = c.offset + MAX_BODY_SIZE;
        proof {
            assert((c.offset + MAX_BODY_SIZE) as int % (MAX_BODY_SIZE as int) == 0) by {
                vstd::arithmetic::div_mod::lemma_mod_add_multiples_vanish(
                    c.offset as int,
                    MAX_BODY_SIZE as int,
                );
            }
        }
        USCursor { session_id: c.session_id, offset }
    }

    /// The closing request of the session path: the remaining bytes — more
    /// than none, at most one body — committed under the target, consuming
    /// the cursor.
    pub fn finish_action(&self, c: USCursor, target: Upload) -> (a: UploadAction)
        requires
            self.wf(),
            self.cursor_ok(c),
            c.offset + MAX_BODY_SIZE >= self.total_len,
        ensures
            a matches UploadAction::Finish { arg, window } && arg.cursor == c && arg.commit
                == target && window == (ChunkWindow {
                start: c.offset,
                len: (self.total_len - c.offset) as u64,
            }) && 0 < window.len <= MAX_BODY_SIZE && window.len == chunk_lengths(
                c.offset as int,
                self.total_len as int,
            )[0],
    {
        let window = self.window_at(c.offset);
        UploadAction::Finish { arg: USFinish { commit: target, cursor: c }, window }
    }
}

} // verus!
