//! The resumable chunked-upload engine: sessions, append and finish
//! arguments, bounded per-block retry, and the upload driver.
//!
//! Large objects are sent as a sequence of fixed-size blocks against a
//! server-side session. Blocks may complete out of order; the
//! [`CompletionTracker`](crate::tracker::CompletionTracker) turns the
//! completions into the contiguous-confirmed watermark, and any terminal
//! failure carries `(session id, watermark)` so the upload can be resumed
//! without re-transferring confirmed bytes.

use vstd::prelude::*;
use vstd::string::StringExecFns;
use crate::client_helpers::{request, ErrorSchema};
use crate::client_trait::HttpClient;
use crate::client_trait_common::{Endpoint, Style};
use crate::error::{Error, NoError};
use crate::text::{fmt_u64, json_string, spec_dec, spec_json_string};
use crate::tracker::CompletionTracker;

verus! {

/// The size of a block: a protocol constant, not adjustable.
pub const BLOCK_SIZE: u64 = 4194304;

/// How many times an append is attempted before the upload aborts; waits
/// ordered by rate-limiting responses do not count against this.
pub const RETRY_LIMIT: u32 = 3;

/// A safety bound on how many rate-limiting waits a single block honors
/// before giving up; rate-limit waits never consume the retry budget, and
/// this bound exists only so that every loop provably terminates.
pub const RATE_LIMIT_WAIT_BOUND: u64 = 1000000;

/// The string at `/session_id` of a JSON document, if the document parses
/// and carries a string there.
pub uninterp spec fn spec_session_id(body: Seq<char>) -> Option<Seq<char>>;

/// Relies on `serde_json::from_str` and `serde_json::Value::pointer` /
/// `Value::as_str`: returns the string at `/session_id` of the JSON
/// document `body`, or `None` if `body` does not parse as JSON or holds no
/// string there. The result depends on `body` alone.
#[verifier::external_body]
fn parse_session_id(body: &str) -> (r: Option<String>)
    ensures
        match r {
            Some(t) => spec_session_id(body@) == Some(t@),
            None => spec_session_id(body@) is None,
        },
{
    let v: serde_json::Value = match serde_json::from_str(body) {
        Ok(v) => v,
        Err(_) => return None,
    };
    Some(v.pointer("/session_id")?.as_str()?.to_owned())
}

/// A cursor: which session an append lands in, and at which offset.
#[derive(Debug, Clone, PartialEq, Eq)]
pub struct UploadSessionCursor {
    /// The session the data is appended to.
    pub session_id: String,
    /// The absolute offset at which the data is appended.
    pub offset: u64,
}

/// Argument to append a block of data to an upload session.
#[derive(Debug, Clone, PartialEq, Eq)]
pub struct UploadSessionAppendArg {
    /// Where the block lands.
    pub cursor: UploadSessionCursor,
    /// Whether this append also closes the session. Closing is a one-way
    /// transition: a closed session accepts no further appends.
    pub close: bool,
}

/// Argument to finish an upload session: commit the uploaded bytes to a
/// path.
#[derive(Debug, Clone, PartialEq, Eq)]
pub struct UploadSessionFinishArg {
    /// The session and its final offset: the total number of bytes
    /// appended.
    pub cursor: UploadSessionCursor,
    /// The path the committed file should live at.
    pub path: String,
    /// The recorded modification time of the source, as an ISO-8601
    /// timestamp, if given.
    pub client_modified: Option<String>,
}

/// The JSON text of an append argument.
pub open spec fn spec_append_arg_json(arg: UploadSessionAppendArg) -> Seq<char> {
    "{\"cursor\":{\"session_id\":"@ + spec_json_string(arg.cursor.session_id@) + ",\"offset\":"@
        + spec_dec(arg.cursor.offset as nat) + "},\"close\":"@ + (if arg.close {
        "true"@
    } else {
        "false"@
    }) + "}"@
}

/// The JSON text of a finish argument.
pub open spec fn spec_finish_arg_json(arg: UploadSessionFinishArg) -> Seq<char> {
    "{\"cursor\":{\"session_id\":"@ + spec_json_string(arg.cursor.session_id@) + ",\"offset\":"@
        + spec_dec(arg.cursor.offset as nat) + "},\"commit\":{\"path\":"@ + spec_json_string(
        arg.path@,
    ) + (match arg.client_modified {
        Some(cm) => ",\"client_modified\":"@ + spec_json_string(cm@),
        None => Seq::empty(),
    }) + "}}"@
}

impl UploadSessionAppendArg {
    /// Serialize the argument as the JSON text the wire protocol calls for.
    pub fn to_json(&self) -> (r: String)
        ensures
            r@ == spec_append_arg_json(*self),
    {
        let mut out = "{\"cursor\":{\"session_id\":".to_owned();
        out.append(json_string(self.cursor.session_id.as_str()).as_str());
        out.append(",\"offset\":");
        out.append(fmt_u64(self.cursor.offset).as_str());
        out.append("},\"close\":");
        if self.close {
            out.append("true");
        } else {
            out.append("false");
        }
        out.append("}");
        out
    }
}

impl UploadSessionFinishArg {
    /// Serialize the argument as the JSON text the wire protocol calls for.
    pub fn to_json(&self) -> (r: String)
        ensures
            r@ == spec_finish_arg_json(*self),
    {
        let mut out = "{\"cursor\":{\"session_id\":".to_owned();
        out.append(json_string(self.cursor.session_id.as_str()).as_str());
        out.append(",\"offset\":");
        out.append(fmt_u64(self.cursor.offset).as_str());
        out.append("},\"commit\":{\"path\":");
        out.append(json_string(self.path.as_str()).as_str());
        if let Some(cm) = &self.client_modified {
            out.append(",\"client_modified\":");
            out.append(json_string(cm.as_str()).as_str());
        }
        out.append("}}");
        out
    }
}

/// A server-side upload session: its id, the offset this run of the upload
/// starts at (0 for a fresh session), and the total size of the source.
#[derive(Debug, Clone, PartialEq, Eq)]
pub struct UploadSession {
    /// The id the server assigned to the session.
    pub session_id: String,
    /// The resume base: everything below this offset was confirmed by an
    /// earlier run.
    pub start_offset: u64,
    /// The total size of the source being uploaded.
    pub file_size: u64,
}

/// Resumption data for an interrupted upload: hand it back to resume
/// without re-transferring confirmed bytes.
#[derive(Debug, Clone, PartialEq, Eq)]
pub struct Resume {
    /// The offset to resume from: everything below it is confirmed.
    pub start_offset: u64,
    /// The session to resume into.
    pub session_id: String,
}

impl UploadSession {
    /// Resume a pre-existing (i.e. interrupted) upload session.
    pub fn resume(resume: Resume, file_size: u64) -> (r: UploadSession)
        ensures
            r.session_id == resume.session_id,
            r.start_offset == resume.start_offset,
            r.file_size == file_size,
    {
        UploadSession {
            session_id: resume.session_id,
            start_offset: resume.start_offset,
            file_size,
        }
    }

    /// Generate the argument to append a block at the given offset relative
    /// to the start of this run.
    pub fn append_arg(&self, block_offset: u64) -> (r: UploadSessionAppendArg)
        requires
            self.start_offset + block_offset <= u64::MAX,
        ensures
            r.cursor.session_id == self.session_id,
            r.cursor.offset == self.start_offset + block_offset,
            !r.close,
    {
        UploadSessionAppendArg {
            cursor: UploadSessionCursor {
                session_id: self.session_id.clone(),
                offset: self.start_offset + block_offset,
            },
            close: false,
        }
    }

    /// Generate the argument to commit the upload at the given path with
    /// the given modification time.
    pub fn commit_arg(&self, dest_path: String, client_modified: Option<String>) -> (r:
        UploadSessionFinishArg)
        ensures
            r.cursor.session_id == self.session_id,
            r.cursor.offset == self.file_size,
            r.path == dest_path,
            r.client_modified == client_modified,
    {
        UploadSessionFinishArg {
            cursor: UploadSessionCursor {
                session_id: self.session_id.clone(),
                offset: self.file_size,
            },
            path: dest_path,
            client_modified,
        }
    }

    /// Mark a block, given by its offset relative to the start of this run,
    /// as confirmed by the server.
    pub fn mark_block_uploaded(
        &self,
        completion: &mut CompletionTracker,
        block_offset: u64,
        block_len: u64,
    )
        requires
            old(completion).wf(),
            self.start_offset + block_offset + block_len <= u64::MAX,
        ensures
            final(completion).wf(),
            (final(completion).pending(), final(completion).watermark())
                == crate::tracker::spec_complete_block(
                old(completion).pending(),
                old(completion).watermark(),
                (self.start_offset + block_offset) as u64,
                block_len,
            ),
            old(completion).watermark() <= final(completion).watermark(),
    {
        completion.complete_block(self.start_offset + block_offset, block_len);
    }
}

/// What to do after one append attempt: the retry policy of the parallel
/// block phase. A rate-limiting response is honored by waiting as long as
/// the server asked and never consumes the retry budget; any other error
/// consumes one attempt; exhausting the budget aborts the upload.
#[derive(Debug, Clone, PartialEq, Eq, Structural)]
pub enum RetryDecision {
    /// The attempt succeeded; the block is done.
    Done,
    /// The server asked for a pause: wait this many seconds and try again,
    /// with the retry budget untouched.
    Wait {
        /// How many seconds the server asked to wait.
        seconds: u32,
    },
    /// The attempt failed; try again.
    Retry,
    /// The attempt failed and the budget is spent; abort the upload.
    GiveUp,
}

/// The per-block retry state: how many errors this block has seen.
#[derive(Debug, Clone, PartialEq, Eq, Structural)]
pub struct BlockRetry {
    /// How many attempts have failed so far.
    pub errors: u32,
}

impl BlockRetry {
    /// A fresh budget.
    pub fn new() -> (r: BlockRetry)
        ensures
            r.errors == 0,
    {
        BlockRetry { errors: 0 }
    }

    /// The decision after one attempt: success ends the block; a
    /// rate-limiting error asks for the server-given wait without touching
    /// the budget; any other error consumes one attempt, and the last
    /// attempt's failure gives up.
    pub open spec fn spec_decide<E>(self, outcome: Result<(), Error<E>>) -> (BlockRetry,
        RetryDecision) {
        match outcome {
            Ok(_) => (self, RetryDecision::Done),
            Err(Error::RateLimited { retry_after_seconds, .. }) => (
                self,
                RetryDecision::Wait { seconds: retry_after_seconds },
            ),
            Err(_) => (
                BlockRetry { errors: (self.errors + 1) as u32 },
                if self.errors + 1 >= RETRY_LIMIT {
                    RetryDecision::GiveUp
                } else {
                    RetryDecision::Retry
                },
            ),
        }
    }

    /// Decide what to do after one attempt.
    pub fn on_attempt<E>(&mut self, outcome: &Result<(), Error<E>>) -> (r: RetryDecision)
        requires
            old(self).errors < RETRY_LIMIT,
        ensures
            *final(self) == (*old(self)).spec_decide(*outcome).0,
            r == (*old(self)).spec_decide(*outcome).1,
    {
        match outcome {
            Ok(_) => RetryDecision::Done,
            Err(Error::RateLimited { retry_after_seconds, .. }) => RetryDecision::Wait {
                seconds: *retry_after_seconds,
            },
            Err(_) => {
                self.errors = self.errors + 1;
                if self.errors >= RETRY_LIMIT {
                    RetryDecision::GiveUp
                } else {
                    RetryDecision::Retry
                }
            },
        }
    }
}

/// A rate-limiting response never consumes the retry budget, and any other
/// error consumes exactly one attempt.
pub proof fn lemma_rate_limit_keeps_budget<E>(s: BlockRetry, e: Error<E>)
    requires
        s.errors < RETRY_LIMIT,
    ensures
        (e matches Error::RateLimited { .. }) ==> s.spec_decide(Err(e)).0.errors == s.errors,
        !(e matches Error::RateLimited { .. }) ==> s.spec_decide(Err(e)).0.errors == s.errors + 1,
{
}

/// A source of bytes to upload. An implementation hands over up to `max`
/// bytes from its current position: what is currently available, which may
/// be fewer than asked (a short read). An empty result means the source is
/// exhausted. Nothing is promised of an implementation; every caller here
/// states what holds whatever a read returns.
pub trait ByteSource {
    /// Read up to `max` bytes, returning what is currently available.
    fn read_block(&mut self, max: usize) -> Result<Vec<u8>, String>;
}

/// The argument that starts an upload session able to accept out-of-order
/// appends: the session is left open, with the concurrent session type.
pub fn start_session_params() -> (r: String)
    ensures
        r@ == "{\"close\":false,\"session_type\":{\".tag\":\"concurrent\"}}"@,
{
    "{\"close\":false,\"session_type\":{\".tag\":\"concurrent\"}}".to_owned()
}

/// Start a fresh upload session able to accept out-of-order appends.
///
/// On success the session starts at offset zero with the given source size,
/// and its id is one the named parse extracted from a session-start
/// response body — never an invented one.
pub fn start_upload_session<TClient: HttpClient>(client: &TClient, file_size: u64) -> (r: Result<
    UploadSession,
    Error<NoError>,
>)
    ensures
        r matches Ok(s) ==> (s.start_offset == 0 && s.file_size == file_size && (exists|
            j: Seq<char>,
        | #[trigger] spec_session_id(j) == Some(s.session_id@))),
{
    let params = start_session_params();
    let empty: Vec<u8> = Vec::new();
    let result_json = match request::<TClient, NoError>(
        client,
        Endpoint::Content,
        Style::Upload,
        "files/upload_session/start",
        params,
        Some(&empty),
    ) {
        Ok(j) => j,
        Err(e) => {
            return Err(e);
        },
    };
    match parse_session_id(result_json.as_str()) {
        Some(session_id) => Ok(UploadSession { session_id, start_offset: 0, file_size }),
        None => Err(
            Error::UnexpectedResponse("no session_id in upload session response".to_owned()),
        ),
    }
}

/// Upload a single block, retrying on errors as the retry policy decides:
/// up to [`RETRY_LIMIT`] attempts, with rate-limiting waits honored through
/// the client's clock and never counted against the budget.
///
/// The retry policy is stated exactly on [`BlockRetry::on_attempt`]; what
/// each attempt returns is up to the client, but an append has no declared
/// error schema, so a failure is never a typed API error.
pub fn upload_block_with_retry<TClient: HttpClient>(
    client: &TClient,
    arg: &UploadSessionAppendArg,
    buf: &Vec<u8>,
) -> (r: Result<(), Error<NoError>>)
    ensures
        r matches Err(e) ==> !(e is Api),
{
    let mut retry = BlockRetry::new();
    let mut waits: u64 = RATE_LIMIT_WAIT_BOUND;
    loop
        invariant
            retry.errors < RETRY_LIMIT,
        decreases RETRY_LIMIT - retry.errors, waits,
    {
        let outcome: Result<(), Error<NoError>> = match request::<TClient, NoError>(
            client,
            Endpoint::Content,
            Style::Upload,
            "files/upload_session/append_v2",
            arg.to_json(),
            Some(buf),
        ) {
            Ok(_) => Ok(()),
            Err(e) => Err(e),
        };
        let ghost pre = retry;
        let decision = retry.on_attempt(&outcome);
        proof {
            if decision is Retry {
                assert(retry.errors == pre.errors + 1);
            }
            if decision is Wait {
                assert(retry == pre);
            }
        }
        match decision {
            RetryDecision::Done => {
                return Ok(());
            },
            RetryDecision::Wait { seconds } => {
                if waits == 0 {
                    // The safety bound: practically unreachable.
                    return match outcome {
                        Err(e) => Err(e),
                        Ok(_) => Ok(()),
                    };
                }
                client.sleep(seconds);
                waits = waits - 1;
            },
            RetryDecision::Retry => {},
            RetryDecision::GiveUp => {
                return match outcome {
                    Err(e) => Err(e),
                    Ok(_) => Ok(()),
                };
            },
        }
    }
}

/// Why an upload run stopped short of a committed file.
#[derive(Debug, Clone, PartialEq, Eq)]
pub struct UploadFailure {
    /// What went wrong, in words.
    pub message: String,
    /// How to resume without re-transferring confirmed bytes, when a
    /// session was established: its id and the confirmed watermark.
    pub resume: Option<Resume>,
}

/// Read bytes from the source until `want` bytes are collected or the
/// source is exhausted; a result shorter than `want` means the source ended.
fn read_full_window<TSource: ByteSource>(source: &mut TSource, want: usize) -> (r: Result<
    Vec<u8>,
    String,
>)
    ensures
        r matches Ok(v) ==> v@.len() <= want,
{
    let mut buf: Vec<u8> = Vec::new();
    loop
        invariant
            buf@.len() <= want,
        ensures
            buf@.len() <= want,
        decreases want - buf@.len(),
    {
        if buf.len() >= want {
            return Ok(buf);
        }
        let chunk = match source.read_block(want - buf.len()) {
            Ok(c) => c,
            Err(msg) => {
                return Err(msg);
            },
        };
        if chunk.len() == 0 {
            return Ok(buf);
        }
        let mut i: usize = 0;
        let ghost grown_from = buf@.len();
        // Keep only what still fits: a source handing back more than asked
        // cannot break the window size.
        while i < chunk.len() && buf.len() < want
            invariant
                buf@.len() <= want,
                0 <= i <= chunk@.len(),
                buf@.len() == grown_from + i,
            decreases chunk@.len() - i,
        {
            buf.push(chunk[i]);
            i = i + 1;
        }
        if i < chunk.len() {
            return Ok(buf);
        }
    }
}

/// The committed-file metadata, as the JSON text the server returned.
pub type CommitMetadata = String;

/// Upload a source as fixed-size blocks against a session, close the
/// session, and commit the upload: the whole orchestration of one run.
///
/// A fresh run starts its own session at offset zero; a resumed run reuses
/// the given session and offset, and the caller hands over a source already
/// positioned at that offset. Blocks below the final short window are
/// appended with bounded retry and fed to the completion tracker; the final
/// window — the only one that may be shorter than [`BLOCK_SIZE`], possibly
/// empty — closes the session, and the commit is retried a bounded number
/// of times. Any terminal failure after a session exists carries the
/// session id and the confirmed watermark to resume from.
///
/// The behavior of each piece is stated exactly on that piece: the block
/// retry policy on [`BlockRetry::on_attempt`], coalescing on
/// [`CompletionTracker::complete_block`](crate::tracker::CompletionTracker::complete_block),
/// the wire arguments on [`UploadSessionAppendArg::to_json`] and
/// [`UploadSessionFinishArg::to_json`]; what the wire returns is up to the
/// client. What is promised of every outcome of a resumed run: a resume
/// offset beyond the source fails up front with the given resumption data
/// unchanged, and any failure at all carries the original session id and a
/// confirmed watermark no smaller than the offset the run started from —
/// the defining reliability property, progress is never discarded.
pub fn upload_file<TClient: HttpClient, TSource: ByteSource>(
    client: &TClient,
    source: &mut TSource,
    dest_path: String,
    client_modified: Option<String>,
    file_size: u64,
    resume: Option<Resume>,
) -> (r: Result<CommitMetadata, UploadFailure>)
    ensures
        resume matches Some(res) ==> (res.start_offset > file_size ==> (r matches Err(f)
            && f.resume == Some(res) && f.message@
            == "resume offset lies beyond the source"@)),
        resume matches Some(res) ==> (match r {
            Result::Err(f) => (f.resume matches Some(back) && back.session_id == res.session_id
                && back.start_offset >= res.start_offset),
            Result::Ok(_) => true,
        }),
{
    let session = match &resume {
        Some(res) => {
            if res.start_offset > file_size {
                return Err(
                    UploadFailure {
                        message: "resume offset lies beyond the source".to_owned(),
                        resume: Some(
                            Resume {
                                start_offset: res.start_offset,
                                session_id: res.session_id.clone(),
                            },
                        ),
                    },
                );
            }
            UploadSession {
                session_id: res.session_id.clone(),
                start_offset: res.start_offset,
                file_size,
            }
        },
        None => match start_upload_session(client, file_size) {
            Ok(s) => s,
            Err(e) => {
                return Err(
                    UploadFailure {
                        message: "starting upload session failed".to_owned(),
                        resume: None,
                    },
                );
            },
        },
    };

    let mut completion = CompletionTracker::resume_from(session.start_offset);

    // The parallel block phase, driven sequentially here: every full-size
    // window below the end of the source is appended and fed to the
    // tracker. The final window, short or empty, is kept for the close.
    let mut sent: u64 = 0;  // bytes handled in this run, relative to start_offset
    let mut remaining: u64 = file_size - session.start_offset;
    let last_block: Vec<u8>;
    loop
        invariant
            session.start_offset + sent + remaining == file_size,
            completion.wf(),
            session.start_offset <= completion.watermark(),
            resume matches Some(res) ==> (res.start_offset <= file_size && session.session_id
                == res.session_id && session.start_offset == res.start_offset),
        ensures
            session.start_offset + sent + remaining == file_size,
            remaining < BLOCK_SIZE,
            completion.wf(),
            session.start_offset <= completion.watermark(),
        decreases remaining,
    {
        if remaining < BLOCK_SIZE {
            // The final window: read what is left and close with it.
            break ;
        }
        let window = match read_full_window(source, BLOCK_SIZE as usize) {
            Ok(w) => w,
            Err(msg) => {
                return Err(
                    UploadFailure {
                        message: msg,
                        resume: Some(
                            Resume {
                                start_offset: completion.complete_up_to(),
                                session_id: session.session_id.clone(),
                            },
                        ),
                    },
                );
            },
        };
        if window.len() < BLOCK_SIZE as usize {
            return Err(
                UploadFailure {
                    message: "source ended before the declared size".to_owned(),
                    resume: Some(
                        Resume {
                            start_offset: completion.complete_up_to(),
                            session_id: session.session_id.clone(),
                        },
                    ),
                },
            );
        }
        let arg = session.append_arg(sent);
        if let Err(e) = upload_block_with_retry(client, &arg, &window) {
            return Err(
                UploadFailure {
                    message: e.summary(),
                    resume: Some(
                        Resume {
                            start_offset: completion.complete_up_to(),
                            session_id: session.session_id.clone(),
                        },
                    ),
                },
            );
        }
        session.mark_block_uploaded(&mut completion, sent, BLOCK_SIZE);
        sent = sent + BLOCK_SIZE;
        remaining = remaining - BLOCK_SIZE;
    }

    // The close phase: the final short window — empty when the source is an
    // exact multiple of the block size — closes the session. A failure here
    // is not fatal: this may be a resumed run whose session was already
    // closed, and the commit below settles it either way.
    last_block = match read_full_window(source, remaining as usize) {
        Ok(w) => w,
        Err(msg) => {
            return Err(
                UploadFailure {
                    message: msg,
                    resume: Some(
                        Resume {
                            start_offset: completion.complete_up_to(),
                            session_id: session.session_id.clone(),
                        },
                    ),
                },
            );
        },
    };
    let mut close_arg = session.append_arg(sent);
    close_arg.close = true;
    let close_result = upload_block_with_retry(client, &close_arg, &last_block);
    if close_result.is_ok() {
        let len = last_block.len() as u64;
        session.mark_block_uploaded(&mut completion, sent, len);
    }

    // The commit phase: bounded retry with a fixed pause.
    let finish = session.commit_arg(dest_path, client_modified);
    let empty: Vec<u8> = Vec::new();
    let mut attempt: u32 = 0;
    while attempt < RETRY_LIMIT
        invariant
            attempt <= RETRY_LIMIT,
            completion.wf(),
            resume matches Some(res) ==> res.start_offset <= file_size,
        decreases RETRY_LIMIT - attempt,
    {
        match request::<TClient, NoError>(
            client,
            Endpoint::Content,
            Style::Upload,
            "files/upload_session/finish",
            finish.to_json(),
            Some(&empty),
        ) {
            Ok(metadata) => {
                return Ok(metadata);
            },
            Err(_) => {
                attempt = attempt + 1;
                client.sleep(1);
            },
        }
    }

    Err(
        UploadFailure {
            message: "committing the upload failed".to_owned(),
            resume: Some(
                Resume {
                    start_offset: completion.complete_up_to(),
                    session_id: session.session_id.clone(),
                },
            ),
        },
    )
}

} // verus!
