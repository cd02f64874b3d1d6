use curl::{
    append_chunk, chunk_len, decode_body, translate, CurlError, CurlOption, EngineCall, Event,
    FileWriteLog, OptionValue, Phase, Request, SinkKind, Step, Transfer, CURLE_OK,
};

/// A scripted stand-in for the engine and the file system that records what
/// it was asked to do.
struct Spy {
    calls: Vec<EngineCall>,
    chunks: Vec<Vec<u8>>,
    perform_status: u32,
    description: Option<String>,
    option_status: u32,
    file_ok: bool,
    upload_size: u64,
    file_writes_fail: bool,
    file_steps: usize,
}

impl Spy {
    fn new() -> Spy {
        Spy {
            calls: Vec::new(),
            chunks: Vec::new(),
            perform_status: CURLE_OK,
            description: None,
            option_status: CURLE_OK,
            file_ok: true,
            upload_size: 0,
            file_writes_fail: false,
            file_steps: 0,
        }
    }

    fn performed(&self) -> bool {
        self.calls.iter().any(|c| matches!(c, EngineCall::Perform { .. }))
    }

    fn option_values(&self, wanted: CurlOption) -> Vec<OptionValue> {
        let mut out = Vec::new();
        for c in &self.calls {
            if let EngineCall::SetOption { option, value, .. } = c {
                if *option == wanted {
                    out.push(value.clone());
                }
            }
        }
        out
    }

    fn run(&mut self, t: &mut Transfer) -> Result<Option<String>, CurlError> {
        let mut step = t.advance(Event::Begin);
        loop {
            let event = match step {
                Step::Finished(outcome) => return outcome,
                Step::CreateFile { .. } => {
                    self.file_steps += 1;
                    if self.file_ok {
                        Event::FileReady
                    } else {
                        Event::FileFailed { detail: "No such file or directory".to_string() }
                    }
                }
                Step::OpenUpload { .. } => {
                    self.file_steps += 1;
                    if self.file_ok {
                        Event::UploadReady { size: self.upload_size }
                    } else {
                        Event::FileFailed { detail: "No such file or directory".to_string() }
                    }
                }
                Step::Engine(call) => {
                    self.calls.push(call.clone());
                    match call {
                        EngineCall::Reset { .. } => Event::ResetDone,
                        EngineCall::SetOption { .. } => Event::OptionSet { status: self.option_status },
                        EngineCall::Perform { .. } => {
                            for c in self.chunks.clone() {
                                if t.accepts_file_write() {
                                    let taken = t.record_file_write(c.len(), !self.file_writes_fail);
                                    if taken < c.len() {
                                        break;
                                    }
                                } else {
                                    let taken = t.deliver(&c);
                                    if taken < c.len() {
                                        break;
                                    }
                                }
                            }
                            Event::Performed { status: self.perform_status }
                        }
                        EngineCall::Describe { .. } => {
                            Event::Described { detail: self.description.clone() }
                        }
                        EngineCall::Cleanup { .. } => panic!("a transfer never releases the session"),
                    }
                }
            };
            step = t.advance(event);
        }
    }
}

fn request() -> Request {
    Request::new(0x1000).unwrap()
}

#[test]
fn get_joins_delivered_chunks() {
    let req = request();
    let mut t = req.get("http://example.test/ok");
    let mut spy = Spy::new();
    spy.chunks = vec![b"hel".to_vec(), b"lo".to_vec()];
    let r = spy.run(&mut t);
    assert_eq!(r, Ok(Some("hello".to_string())));
    assert_eq!(t.phase(), Phase::Done);
}

#[test]
fn get_failure_carries_engine_description() {
    let req = request();
    let mut t = req.get("http://example.test/fail");
    let mut spy = Spy::new();
    spy.perform_status = 7;
    spy.description = Some("Couldn't resolve host".to_string());
    let r = spy.run(&mut t);
    let e = r.unwrap_err();
    assert_eq!(
        e,
        CurlError::Engine { code: 7, detail: Some("Couldn't resolve host".to_string()) }
    );
    assert_eq!(e.description(), "Couldn't resolve host");
    assert_eq!(e.label(), "Curl has returned an error");
}

#[test]
fn download_to_missing_directory_never_reaches_engine() {
    let req = request();
    let mut t = req.download("http://example.test/ok", "/tmp/missing-dir/out.html");
    let mut spy = Spy::new();
    spy.file_ok = false;
    let r = spy.run(&mut t);
    assert!(matches!(r, Err(CurlError::FileSystem { .. })));
    assert!(spy.calls.is_empty());
    assert!(t.file_failed());
    assert!(!t.engine_used());
}

#[test]
fn put_hands_over_file_size() {
    let req = request();
    let mut t = req.put("http://example.test/up", "localfile.bin");
    let mut spy = Spy::new();
    spy.upload_size = 4096;
    let r = spy.run(&mut t);
    assert_eq!(r, Ok(None));
    let sizes = spy.option_values(CurlOption::InFileSizeLarge);
    assert_eq!(sizes.len(), 1);
    assert!(matches!(sizes[0], OptionValue::Size(4096)));
    assert!(matches!(spy.option_values(CurlOption::Upload)[0], OptionValue::Long(1)));
    assert!(matches!(spy.option_values(CurlOption::ReadData)[0], OptionValue::Source));
}

#[test]
fn post_succeeds_without_body() {
    let req = request();
    let mut t = req.post("http://example.test/submit", "a=1&b=2");
    let mut spy = Spy::new();
    let r = spy.run(&mut t);
    assert_eq!(r, Ok(None));
    let bodies = spy.option_values(CurlOption::PostFields);
    assert!(matches!(&bodies[0], OptionValue::Text(s) if s == "a=1&b=2"));
    let urls = spy.option_values(CurlOption::Url);
    assert!(matches!(&urls[0], OptionValue::Text(s) if s == "http://example.test/submit"));
}

#[test]
fn options_follow_plan_then_perform() {
    let req = request();
    let mut t = req.get("http://example.test/ok");
    let plan = t.options();
    assert_eq!(plan.len(), 3);
    let mut spy = Spy::new();
    spy.run(&mut t).unwrap();
    assert_eq!(spy.calls.len(), 6);
    assert!(matches!(spy.calls[0], EngineCall::Reset { handle: 0x1000 }));
    assert!(matches!(spy.calls[2], EngineCall::SetOption { handle: 0x1000, option: CurlOption::WriteFunction, value: OptionValue::Callback(SinkKind::Buffer) }));
    assert!(matches!(spy.calls[3], EngineCall::SetOption { option: CurlOption::WriteData, value: OptionValue::Sink(SinkKind::Buffer), .. }));
    assert!(matches!(spy.calls[4], EngineCall::Perform { handle: 0x1000 }));
    assert!(matches!(spy.calls[5], EngineCall::Reset { handle: 0x1000 }));
}

#[test]
fn failing_option_stops_before_perform() {
    let req = request();
    let mut t = req.post("http://example.test/submit", "x");
    let mut spy = Spy::new();
    spy.option_status = 48;
    spy.description = Some("An unknown option was passed in to libcurl".to_string());
    let r = spy.run(&mut t);
    assert!(matches!(r, Err(CurlError::Engine { code: 48, .. })));
    assert!(!spy.performed());
    let n = spy.calls.len();
    assert!(matches!(spy.calls[n - 2], EngineCall::Reset { .. }));
    assert!(matches!(spy.calls[n - 1], EngineCall::Describe { code: 48 }));
}

#[test]
fn get_rejects_invalid_utf8() {
    let req = request();
    let mut t = req.get("http://example.test/bin");
    let mut spy = Spy::new();
    spy.chunks = vec![vec![0x68, 0xff], vec![0x69]];
    assert_eq!(spy.run(&mut t), Err(CurlError::Decode));
}

#[test]
fn get_with_no_chunks_is_empty_text() {
    let req = request();
    let mut t = req.get("http://example.test/empty");
    let mut spy = Spy::new();
    assert_eq!(spy.run(&mut t), Ok(Some(String::new())));
}

#[test]
fn get_keeps_multibyte_text_split_across_chunks() {
    let req = request();
    let mut t = req.get("http://example.test/utf8");
    let mut spy = Spy::new();
    let bytes = "héllo wörld".as_bytes().to_vec();
    spy.chunks = vec![bytes[..2].to_vec(), bytes[2..7].to_vec(), bytes[7..].to_vec()];
    assert_eq!(spy.run(&mut t), Ok(Some("héllo wörld".to_string())));
}

#[test]
fn download_write_failure_is_reported() {
    let req = request();
    let mut t = req.download("http://example.test/ok", "out.html");
    let mut spy = Spy::new();
    spy.chunks = vec![b"abc".to_vec(), b"def".to_vec()];
    spy.file_writes_fail = true;
    spy.perform_status = 23;
    let r = spy.run(&mut t);
    assert_eq!(r, Err(CurlError::SinkWrite { written: 0 }));
}

#[test]
fn download_success_counts_bytes() {
    let req = request();
    let mut t = req.download("http://example.test/ok", "out.html");
    let mut spy = Spy::new();
    spy.chunks = vec![b"abc".to_vec(), b"defg".to_vec()];
    let r = spy.run(&mut t);
    assert_eq!(r, Ok(None));
    assert_eq!(spy.file_steps, 1);
}

#[test]
fn put_of_missing_file_never_reaches_engine() {
    let req = request();
    let mut t = req.put("http://example.test/up", "missing.bin");
    let mut spy = Spy::new();
    spy.file_ok = false;
    assert!(matches!(spy.run(&mut t), Err(CurlError::FileSystem { .. })));
    assert!(spy.calls.is_empty());
}

#[test]
fn put_of_oversized_file_is_refused() {
    let req = request();
    let mut t = req.put("http://example.test/up", "huge.bin");
    let mut spy = Spy::new();
    spy.upload_size = u64::MAX;
    let r = spy.run(&mut t);
    let e = r.unwrap_err();
    assert_eq!(e.description(), "file too large to upload");
    assert!(spy.calls.is_empty());
}

#[test]
fn finished_transfer_refuses_more_events() {
    let req = request();
    let mut t = req.post("http://example.test/submit", "a=1");
    let mut spy = Spy::new();
    spy.run(&mut t).unwrap();
    let before = spy.calls.len();
    assert!(matches!(t.advance(Event::Performed { status: 0 }), Step::Finished(Err(CurlError::Sequence))));
    assert!(matches!(t.advance(Event::Begin), Step::Finished(Err(CurlError::Sequence))));
    assert_eq!(spy.calls.len(), before);
}

#[test]
fn out_of_order_event_ends_transfer() {
    let req = request();
    let mut t = req.get("http://example.test/ok");
    assert!(matches!(t.advance(Event::FileReady), Step::Finished(Err(CurlError::Sequence))));
    assert_eq!(t.phase(), Phase::Done);
}

#[test]
fn deliver_outside_perform_is_refused() {
    let req = request();
    let mut t = req.get("http://example.test/ok");
    assert_eq!(t.deliver(b"abc"), 0);
    let mut d = req.download("http://example.test/ok", "f");
    assert!(!d.accepts_file_write());
    assert_eq!(d.record_file_write(3, true), 0);
}

#[test]
fn new_refuses_null_handle() {
    assert!(matches!(Request::new(0), Err(CurlError::Init)));
    let req = Request::new(42).unwrap();
    assert_eq!(req.handle(), 42);
}

#[test]
fn release_gives_cleanup_of_own_handle() {
    let req = Request::new(99).unwrap();
    for _ in 0..3 {
        let mut t = req.post("http://example.test/submit", "a");
        Spy::new().run(&mut t).unwrap();
    }
    assert!(matches!(req.release(), EngineCall::Cleanup { handle: 99 }));
}

#[test]
fn set_opt_and_execute_name_the_session() {
    let req = Request::new(5).unwrap();
    let c = req.setOpt(CurlOption::Url, OptionValue::Text("http://a".to_string()));
    assert!(matches!(c, EngineCall::SetOption { handle: 5, option: CurlOption::Url, value: OptionValue::Text(ref s) } if s == "http://a"));
    assert!(matches!(req.execute(), EngineCall::Perform { handle: 5 }));
}

#[test]
fn option_ids_match_engine() {
    assert_eq!(CurlOption::Url.id(), 10002);
    assert_eq!(CurlOption::WriteFunction.id(), 20011);
    assert_eq!(CurlOption::WriteData.id(), 10001);
    assert_eq!(CurlOption::PostFields.id(), 10015);
    assert_eq!(CurlOption::Upload.id(), 46);
    assert_eq!(CurlOption::Put.id(), 54);
    assert_eq!(CurlOption::ReadData.id(), 10009);
    assert_eq!(CurlOption::InFileSizeLarge.id(), 30115);
}

#[test]
fn chunk_len_checks_overflow() {
    assert_eq!(chunk_len(1, 5), Some(5));
    assert_eq!(chunk_len(4, 3), Some(12));
    assert_eq!(chunk_len(0, usize::MAX), Some(0));
    assert_eq!(chunk_len(2, usize::MAX), None);
}

#[test]
fn append_chunk_keeps_order() {
    let mut buf = b"ab".to_vec();
    assert_eq!(append_chunk(&mut buf, b"cd"), 2);
    assert_eq!(append_chunk(&mut buf, b""), 0);
    assert_eq!(buf, b"abcd".to_vec());
}

#[test]
fn decode_body_reads_text() {
    assert_eq!(decode_body(b"hello".to_vec()), Ok("hello".to_string()));
    assert_eq!(decode_body(vec![0xc3]), Err(CurlError::Decode));
}

#[test]
fn file_write_log_stops_after_failure() {
    let mut log = FileWriteLog::new();
    assert_eq!(log.record(4, true), 4);
    assert_eq!(log.record(3, false), 0);
    assert_eq!(log.record(5, true), 0);
    assert_eq!(log, FileWriteLog { written: 4, failed: true });
    assert!(!log.accepts());
}

#[test]
fn engine_errors_are_never_described_empty() {
    for detail in [None, Some(String::new()), Some("Timeout was reached".to_string())] {
        let e = translate(28, detail.clone());
        assert!(!e.description().is_empty());
        if let Some(d) = detail.filter(|d| !d.is_empty()) {
            assert_eq!(e.description(), d);
        } else {
            assert_eq!(e.description(), "Curl has returned an error");
        }
    }
}

#[test]
fn every_error_has_a_description() {
    let all = [
        CurlError::Init,
        CurlError::Engine { code: 6, detail: None },
        CurlError::FileSystem { detail: String::new() },
        CurlError::Decode,
        CurlError::SinkWrite { written: 10 },
        CurlError::Sequence,
    ];
    for e in all {
        assert!(!e.description().is_empty());
        assert!(!e.label().is_empty());
    }
}

#[test]
fn every_transfer_starts_from_reset_options() {
    let req = request();
    let mut spy = Spy::new();
    spy.upload_size = 10;
    let mut put = req.put("http://example.test/up", "f.bin");
    spy.run(&mut put).unwrap();
    let mut get = req.get("http://example.test/ok");
    spy.run(&mut get).unwrap();
    let mut download = req.download("http://example.test/ok", "out.html");
    spy.run(&mut download).unwrap();
    let resets: Vec<usize> = spy
        .calls
        .iter()
        .enumerate()
        .filter(|(_, c)| matches!(c, EngineCall::Reset { .. }))
        .map(|(i, _)| i)
        .collect();
    let performs: Vec<usize> = spy
        .calls
        .iter()
        .enumerate()
        .filter(|(_, c)| matches!(c, EngineCall::Perform { .. }))
        .map(|(i, _)| i)
        .collect();
    assert_eq!(resets.len(), 6);
    assert_eq!(performs.len(), 3);
    for k in 0..3 {
        assert_eq!(resets[2 * k + 1], performs[k] + 1);
        assert!(matches!(spy.calls[resets[2 * k] + 1], EngineCall::SetOption { .. }));
    }
    assert_eq!(resets[5], spy.calls.len() - 1);
}

#[test]
fn reset_comes_after_file_step() {
    let req = request();
    let mut t = req.download("http://example.test/ok", "out.html");
    assert!(matches!(t.advance(Event::Begin), Step::CreateFile { .. }));
    assert!(!t.engine_used());
    assert!(matches!(t.advance(Event::FileReady), Step::Engine(EngineCall::Reset { handle: 0x1000 })));
    assert_eq!(t.phase(), Phase::AwaitReset);
}

#[test]
fn get_outcome_same_for_any_chunking() {
    let req = request();
    let splits: Vec<Vec<Vec<u8>>> = vec![
        vec![b"hello".to_vec()],
        vec![b"h".to_vec(), b"ell".to_vec(), b"o".to_vec()],
        vec![b"".to_vec(), b"hel".to_vec(), b"lo".to_vec(), b"".to_vec()],
    ];
    for chunks in splits {
        let mut t = req.get("http://example.test/ok");
        let mut spy = Spy::new();
        spy.chunks = chunks;
        assert_eq!(spy.run(&mut t), Ok(Some("hello".to_string())));
    }
}
