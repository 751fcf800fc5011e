//! End-to-end tests for the chunked upload engine, against a stub service.

use std::cell::RefCell;
use std::collections::HashMap;
use dropbox_sdk::client_trait::{HttpClient, HttpRequestResultRaw, PreparedRequest};
use dropbox_sdk::upload::{
    start_session_params, upload_file, ByteSource, Resume, UploadSession, UploadSessionAppendArg,
    UploadSessionCursor, UploadSessionFinishArg, BLOCK_SIZE,
};

const MIB: u64 = 1024 * 1024;

fn ok_json(body: String) -> Result<HttpRequestResultRaw, String> {
    Ok(HttpRequestResultRaw { status: 200, result_header: None, content_length: None, body })
}

fn error_status(status: u16, body: &str) -> Result<HttpRequestResultRaw, String> {
    Ok(HttpRequestResultRaw {
        status,
        result_header: None,
        content_length: None,
        body: body.to_owned(),
    })
}

/// One observed append.
#[derive(Clone)]
struct Append {
    offset: u64,
    data: Vec<u8>,
    close: bool,
}

/// A stub of the upload service: hands out one session, stores appends,
/// can be told to fail given (offset, attempt) pairs, and commits when the
/// received bytes are contiguous and complete.
struct UploadService {
    appends: RefCell<Vec<Append>>,
    attempts: RefCell<HashMap<u64, u32>>,
    /// How many times an append at a given offset fails before succeeding.
    failures_at: HashMap<u64, u32>,
    /// Whether the first failure at an offset is a rate-limit response.
    rate_limit_first: bool,
    /// Whether the commit endpoint always fails.
    fail_commit: bool,
    sleeps: RefCell<Vec<u32>>,
    committed: RefCell<Option<(u64, String)>>,
    /// Bytes confirmed from an earlier, interrupted run.
    preloaded: Vec<u8>,
}

impl UploadService {
    fn new() -> Self {
        UploadService {
            appends: RefCell::new(Vec::new()),
            attempts: RefCell::new(HashMap::new()),
            failures_at: HashMap::new(),
            rate_limit_first: false,
            fail_commit: false,
            sleeps: RefCell::new(Vec::new()),
            committed: RefCell::new(None),
            preloaded: Vec::new(),
        }
    }

    /// All bytes received, stitched in offset order, when contiguous.
    fn stitched(&self) -> Option<Vec<u8>> {
        let mut out = self.preloaded.clone();
        let mut appends: Vec<Append> = self.appends.borrow().clone();
        appends.sort_by_key(|a| a.offset);
        for a in appends {
            if a.offset != out.len() as u64 {
                return None;
            }
            out.extend_from_slice(&a.data);
        }
        Some(out)
    }

    fn arg_header(request: &PreparedRequest) -> serde_json::Value {
        let arg = request
            .headers
            .iter()
            .find(|(n, _)| n == "Dropbox-API-Arg")
            .map(|(_, v)| v.clone())
            .expect("append request must carry its argument header");
        serde_json::from_str(&arg).expect("argument header must be JSON")
    }
}

impl HttpClient for UploadService {
    fn execute(
        &self,
        request: &PreparedRequest,
        body: &Vec<u8>,
    ) -> Result<HttpRequestResultRaw, String> {
        match request.url.as_str() {
            "https://content.dropboxapi.com/2/files/upload_session/start" => {
                ok_json(r#"{"session_id":"sid-1"}"#.to_owned())
            }
            "https://content.dropboxapi.com/2/files/upload_session/append_v2" => {
                let arg = Self::arg_header(request);
                let offset = arg["cursor"]["offset"].as_u64().expect("offset must be a number");
                assert_eq!(arg["cursor"]["session_id"].as_str(), Some("sid-1"));
                let close = arg["close"].as_bool().unwrap_or(false);
                let mut attempts = self.attempts.borrow_mut();
                let n = attempts.entry(offset).or_insert(0);
                *n += 1;
                if let Some(&fails) = self.failures_at.get(&offset) {
                    if *n <= fails {
                        if self.rate_limit_first && *n == 1 {
                            return error_status(
                                429,
                                r#"{"error":{"reason":{".tag":"too_many_requests"},"retry_after":7}}"#,
                            );
                        }
                        return error_status(503, "transient failure");
                    }
                }
                self.appends.borrow_mut().push(Append {
                    offset,
                    data: body.clone(),
                    close,
                });
                ok_json("null".to_owned())
            }
            "https://content.dropboxapi.com/2/files/upload_session/finish" => {
                if self.fail_commit {
                    return error_status(500, "cannot commit right now");
                }
                let arg = Self::arg_header(request);
                let offset = arg["cursor"]["offset"].as_u64().expect("offset must be a number");
                let stitched = self.stitched().expect("commit with non-contiguous bytes");
                assert_eq!(
                    stitched.len() as u64,
                    offset,
                    "every byte must be confirmed before the commit is attempted"
                );
                let path = arg["commit"]["path"].as_str().expect("commit must carry a path");
                *self.committed.borrow_mut() = Some((offset, path.to_owned()));
                ok_json(format!(r#"{{"name":"f","size":{}}}"#, offset))
            }
            url => Err(format!("unhandled URL {}", url)),
        }
    }

    fn sleep(&self, seconds: u32) {
        self.sleeps.borrow_mut().push(seconds);
    }
}

/// A byte source over a vector, deliberately handing out short reads.
struct VecSource {
    data: Vec<u8>,
    pos: usize,
    max_chunk: usize,
}

impl VecSource {
    fn new(data: Vec<u8>) -> Self {
        VecSource { data, pos: 0, max_chunk: 1 << 20 }
    }

    fn positioned(data: Vec<u8>, pos: usize) -> Self {
        VecSource { data, pos, max_chunk: 1 << 20 }
    }
}

impl ByteSource for VecSource {
    fn read_block(&mut self, max: usize) -> Result<Vec<u8>, String> {
        let n = max.min(self.max_chunk).min(self.data.len() - self.pos);
        let chunk = self.data[self.pos..self.pos + n].to_vec();
        self.pos += n;
        Ok(chunk)
    }
}

fn pattern(len: usize) -> Vec<u8> {
    (0..len).map(|i| (i % 251) as u8).collect()
}

#[test]
fn ten_mib_upload_with_flaky_second_block() {
    // 10 MiB source: blocks of 4, 4 and 2 MiB. The second block fails twice
    // and succeeds on the third attempt; the upload still succeeds.
    let source_data = pattern((10 * MIB) as usize);
    let mut service = UploadService::new();
    service.failures_at.insert(4 * MIB, 2);
    let mut source = VecSource::new(source_data.clone());

    let metadata = upload_file(
        &service,
        &mut source,
        "/dest/file.bin".to_owned(),
        Some("2024-01-02T03:04:05Z".to_owned()),
        10 * MIB,
        None,
    )
    .expect("upload must succeed despite two failures on the second block");

    let parsed: serde_json::Value = serde_json::from_str(&metadata).unwrap();
    assert_eq!(parsed["size"].as_u64(), Some(10 * MIB));
    let committed = service.committed.borrow().clone().expect("must have committed");
    assert_eq!(committed.0, 10 * MIB);
    assert_eq!(committed.1, "/dest/file.bin");
    assert_eq!(service.stitched().expect("bytes must be contiguous"), source_data);
    assert_eq!(*service.attempts.borrow().get(&(4 * MIB)).unwrap(), 3);
    // The final 2 MiB window closed the session.
    let appends = service.appends.borrow();
    let closing: Vec<&Append> = appends.iter().filter(|a| a.close).collect();
    assert_eq!(closing.len(), 1);
    assert_eq!(closing[0].offset, 8 * MIB);
    assert_eq!(closing[0].data.len() as u64, 2 * MIB);
}

#[test]
fn rate_limit_wait_honored_without_spending_budget() {
    // The second block is rate-limited once, then fails twice with a server
    // error, then succeeds: only the two server errors count against the
    // three attempts, so the upload still succeeds.
    let source_data = pattern((10 * MIB) as usize);
    let mut service = UploadService::new();
    service.failures_at.insert(4 * MIB, 3);
    service.rate_limit_first = true;
    let mut source = VecSource::new(source_data.clone());

    upload_file(
        &service,
        &mut source,
        "/dest/file.bin".to_owned(),
        None,
        10 * MIB,
        None,
    )
    .expect("rate-limit waits must not consume the retry budget");

    assert_eq!(*service.sleeps.borrow(), vec![7], "the server-given delay is honored");
    assert_eq!(service.stitched().expect("bytes must be contiguous"), source_data);
}

#[test]
fn three_failures_abort_with_resume_data() {
    let source_data = pattern((10 * MIB) as usize);
    let mut service = UploadService::new();
    service.failures_at.insert(4 * MIB, 100);
    let mut source = VecSource::new(source_data);

    let failure = upload_file(
        &service,
        &mut source,
        "/dest/file.bin".to_owned(),
        None,
        10 * MIB,
        None,
    )
    .expect_err("the upload must abort once the budget is spent");

    assert_eq!(*service.attempts.borrow().get(&(4 * MIB)).unwrap(), 3);
    let resume = failure.resume.expect("the failure must carry resumption data");
    assert_eq!(resume.session_id, "sid-1");
    assert_eq!(resume.start_offset, 4 * MIB, "block one was confirmed");
}

#[test]
fn resumed_upload_sends_only_missing_blocks() {
    // A first run confirmed block one (offset 0, 4 MiB) and was
    // interrupted. The resumed run re-sends only blocks two and three, and
    // the committed bytes equal the full original source.
    let source_data = pattern((10 * MIB) as usize);
    let mut service = UploadService::new();
    service.preloaded = source_data[..(4 * MIB) as usize].to_vec();
    let resume = Resume { start_offset: 4 * MIB, session_id: "sid-1".to_owned() };
    let mut source = VecSource::positioned(source_data.clone(), (4 * MIB) as usize);

    let metadata = upload_file(
        &service,
        &mut source,
        "/dest/file.bin".to_owned(),
        None,
        10 * MIB,
        Some(resume),
    )
    .expect("resumed upload must succeed");

    let parsed: serde_json::Value = serde_json::from_str(&metadata).unwrap();
    assert_eq!(parsed["size"].as_u64(), Some(10 * MIB));
    let appends = service.appends.borrow();
    let mut offsets: Vec<u64> = appends.iter().map(|a| a.offset).collect();
    offsets.sort();
    assert_eq!(offsets, vec![4 * MIB, 8 * MIB], "only blocks two and three are re-sent");
    drop(appends);
    assert_eq!(service.stitched().expect("bytes must be contiguous"), source_data);
}

#[test]
fn exact_multiple_issues_empty_closing_append() {
    let source_data = pattern((8 * MIB) as usize);
    let service = UploadService::new();
    let mut source = VecSource::new(source_data.clone());

    upload_file(&service, &mut source, "/d".to_owned(), None, 8 * MIB, None)
        .expect("upload must succeed");

    let appends = service.appends.borrow();
    let closing: Vec<&Append> = appends.iter().filter(|a| a.close).collect();
    assert_eq!(closing.len(), 1);
    assert_eq!(closing[0].offset, 8 * MIB);
    assert_eq!(closing[0].data.len(), 0, "an empty closing append is still issued");
}

#[test]
fn persistent_commit_failure_keeps_resume_data() {
    let source_data = pattern((8 * MIB) as usize);
    let mut service = UploadService::new();
    service.fail_commit = true;
    let mut source = VecSource::new(source_data);

    let failure = upload_file(&service, &mut source, "/d".to_owned(), None, 8 * MIB, None)
        .expect_err("a commit that keeps failing must surface a failure");

    let resume = failure.resume.expect("the failure must carry resumption data");
    assert_eq!(resume.session_id, "sid-1");
    assert_eq!(resume.start_offset, 8 * MIB, "every block was confirmed");
    // Three attempts with the fixed pause between them.
    assert_eq!(*service.sleeps.borrow(), vec![1, 1, 1]);
}

#[test]
fn append_arg_serializes_exactly() {
    let arg = UploadSessionAppendArg {
        cursor: UploadSessionCursor { session_id: "s\"id".to_owned(), offset: 4194304 },
        close: false,
    };
    assert_eq!(arg.to_json(), r#"{"cursor":{"session_id":"s\"id","offset":4194304},"close":false}"#);
    let mut closing = arg.clone();
    closing.close = true;
    assert_eq!(
        closing.to_json(),
        r#"{"cursor":{"session_id":"s\"id","offset":4194304},"close":true}"#
    );
}

#[test]
fn finish_arg_serializes_exactly() {
    let arg = UploadSessionFinishArg {
        cursor: UploadSessionCursor { session_id: "sid".to_owned(), offset: 10485760 },
        path: "/a/b.bin".to_owned(),
        client_modified: Some("2024-01-02T03:04:05Z".to_owned()),
    };
    assert_eq!(
        arg.to_json(),
        r#"{"cursor":{"session_id":"sid","offset":10485760},"commit":{"path":"/a/b.bin","client_modified":"2024-01-02T03:04:05Z"}}"#
    );
    let bare = UploadSessionFinishArg {
        cursor: UploadSessionCursor { session_id: "sid".to_owned(), offset: 0 },
        path: "/a".to_owned(),
        client_modified: None,
    };
    assert_eq!(bare.to_json(), r#"{"cursor":{"session_id":"sid","offset":0},"commit":{"path":"/a"}}"#);
}

#[test]
fn session_start_argument_is_the_open_concurrent_session() {
    assert_eq!(start_session_params(), r#"{"close":false,"session_type":{".tag":"concurrent"}}"#);
}

#[test]
fn resume_beyond_the_source_fails_up_front() {
    let service = UploadService::new();
    let mut source = VecSource::new(Vec::new());
    let resume = Resume { start_offset: 5, session_id: "sid-9".to_owned() };
    let failure = upload_file(&service, &mut source, "/d".to_owned(), None, 4, Some(resume))
        .expect_err("a resume offset beyond the source must fail");
    assert_eq!(failure.message, "resume offset lies beyond the source");
    let back = failure.resume.expect("the given resumption data comes back");
    assert_eq!(back.session_id, "sid-9");
    assert_eq!(back.start_offset, 5);
    assert!(service.appends.borrow().is_empty(), "nothing may be sent");
}

#[test]
fn session_args_use_absolute_offsets() {
    let session = UploadSession {
        session_id: "sid".to_owned(),
        start_offset: 4 * MIB,
        file_size: 10 * MIB,
    };
    let arg = session.append_arg(4 * MIB);
    assert_eq!(arg.cursor.offset, 8 * MIB);
    assert!(!arg.close);
    let finish = session.commit_arg("/p".to_owned(), None);
    assert_eq!(finish.cursor.offset, 10 * MIB);
    assert_eq!(BLOCK_SIZE, 4 * MIB);
}
