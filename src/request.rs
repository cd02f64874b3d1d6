use vstd::prelude::*;
use vstd::utf8::{decode_utf8, valid_utf8};

use crate::binding::{CurlOption, EngineCall, OptionValue, SinkKind, CURLE_OK};
use crate::bridge::{append_chunk, concat_chunks, decode_body, recorded, reported, FileWriteLog};
use crate::error::{translate, CurlError};

verus! {

/// A Request owns one native session of the engine, named by its non-zero
/// handle, from creation until `release`.
pub struct Request {
    handle: usize,
}

/// The high-level operations a request performs.
#[derive(Clone, Copy, Debug, PartialEq, Eq, Structural)]
pub enum Operation {
    Get,
    Download,
    Post,
    Put,
}

/// Where a transfer stands: what it last asked the driver for.
#[derive(Clone, Copy, Debug, PartialEq, Eq, Structural)]
pub enum Phase {
    /// Nothing asked yet.
    Start,
    /// Waiting to hear whether the local file could be prepared.
    AwaitFile,
    /// Waiting for the session's options to be reset to the engine's defaults.
    AwaitReset,
    /// Waiting for the status of the option just set.
    Configure,
    /// Waiting for the transfer to run.
    AwaitPerform,
    /// Waiting for the session's options to be cleared once the engine has
    /// run the transfer or refused an option.
    AwaitClear,
    /// Waiting for the engine's description of a failure status.
    AwaitDescription,
    /// Finished; nothing more is asked.
    Done,
}

/// What a transfer asks its driver to do next.
#[derive(Debug)]
pub enum Step {
    /// Create or truncate the destination file and keep it open for writing.
    CreateFile { path: String },
    /// Open the file to upload for reading and measure its size.
    OpenUpload { path: String },
    /// Make this call into the engine.
    Engine(EngineCall),
    /// The operation is over, with this outcome: the text for `get`, nothing
    /// for the other operations.
    Finished(Result<Option<String>, CurlError>),
}

/// What the driver reports back to a transfer.
#[derive(Clone, Debug)]
pub enum Event {
    /// Asks for the first step.
    Begin,
    /// The destination file is created and open.
    FileReady,
    /// The upload file is open and holds `size` bytes.
    UploadReady { size: u64 },
    /// The local file could not be prepared.
    FileFailed { detail: String },
    /// The session's options are back at the engine's defaults.
    ResetDone,
    /// The engine answered an option setting with `status`.
    OptionSet { status: u32 },
    /// The engine ran the transfer and returned `status`.
    Performed { status: u32 },
    /// The engine's description of the failure status, where it gave one.
    Described { detail: Option<String> },
}

/// One GET, download, POST or PUT on a request, run step by step: the driver
/// performs each `Step` it is given and reports the matching `Event`. A
/// transfer borrows its request, so the session cannot be released while the
/// transfer lives. Its first call into the engine resets every option of the
/// session, so nothing an earlier transfer set reaches this one's `Perform`;
/// once the engine has run it (or refused an option) the options are reset
/// again, so no sink, body or upload source of it stays set on the session.
/// During
/// the `Perform` step the engine's write callback hands every chunk to
/// `deliver` (in-memory sink) or reports every file write to
/// `record_file_write` (file sink); outside that step both refuse.
pub struct Transfer<'a> {
    request: &'a Request,
    op: Operation,
    url: String,
    path: String,
    data: String,
    size: i64,
    next: usize,
    phase: Phase,
    status: u32,
    performed: bool,
    body: Vec<u8>,
    log: FileWriteLog,
    engine_used: bool,
    file_failed: bool,
    reset_done: bool,
    chunks: Ghost<Seq<Seq<u8>>>,
}

/// Options for GET: the URL, then the write callback and the in-memory sink.
pub open spec fn get_plan(url: String) -> Seq<(CurlOption, OptionValue)> {
    seq![
        (CurlOption::Url, OptionValue::Text(url)),
        (CurlOption::WriteFunction, OptionValue::Callback(SinkKind::Buffer)),
        (CurlOption::WriteData, OptionValue::Sink(SinkKind::Buffer)),
    ]
}

/// Options for a download: the URL, then the write callback and the file sink.
pub open spec fn download_plan(url: String) -> Seq<(CurlOption, OptionValue)> {
    seq![
        (CurlOption::Url, OptionValue::Text(url)),
        (CurlOption::WriteFunction, OptionValue::Callback(SinkKind::File)),
        (CurlOption::WriteData, OptionValue::Sink(SinkKind::File)),
    ]
}

/// Options for POST: the URL and the body, passed on as given.
pub open spec fn post_plan(url: String, data: String) -> Seq<(CurlOption, OptionValue)> {
    seq![
        (CurlOption::Url, OptionValue::Text(url)),
        (CurlOption::PostFields, OptionValue::Text(data)),
    ]
}

/// Options for PUT: upload mode, the URL, the open source file and its size.
pub open spec fn put_plan(url: String, size: i64) -> Seq<(CurlOption, OptionValue)> {
    seq![
        (CurlOption::Upload, OptionValue::Long(1)),
        (CurlOption::Put, OptionValue::Long(1)),
        (CurlOption::Url, OptionValue::Text(url)),
        (CurlOption::ReadData, OptionValue::Source),
        (CurlOption::InFileSizeLarge, OptionValue::Size(size)),
    ]
}

/// The options an operation sets, in order. A PUT knows its options once
/// the size of its file is known.
pub open spec fn plan_of(op: Operation, url: String, data: String, size: i64) -> Seq<(CurlOption, OptionValue)> {
    match op {
        Operation::Get => get_plan(url),
        Operation::Download => download_plan(url),
        Operation::Post => post_plan(url, data),
        Operation::Put => put_plan(url, size),
    }
}

/// Whether a transfer in `phase` is waiting for an event like `e`.
pub open spec fn expects(phase: Phase, op: Operation, e: Event) -> bool {
    match phase {
        Phase::Start => e is Begin,
        Phase::AwaitFile => (op == Operation::Download && e is FileReady) || (op == Operation::Put
            && e is UploadReady) || e is FileFailed,
        Phase::AwaitReset => e is ResetDone,
        Phase::AwaitClear => e is ResetDone,
        Phase::Configure => e is OptionSet,
        Phase::AwaitPerform => e is Performed,
        Phase::AwaitDescription => e is Described,
        Phase::Done => false,
    }
}

/// Whether a step makes a call into the engine.
pub open spec fn calls_engine(s: Step) -> bool {
    s is Engine
}

impl Request {
    #[verifier::type_invariant]
    spec fn inv(&self) -> bool {
        self.handle != 0
    }

    /// The native session this request owns.
    pub closed spec fn session(&self) -> usize {
        self.handle
    }

    /// Takes ownership of the session the engine handed out; `0` is the
    /// engine's sign that it refused one, and gives `Init`.
    pub fn new(handle: usize) -> (r: Result<Request, CurlError>)
        ensures
            r is Err <==> handle == 0,
            r matches Err(e) ==> e == CurlError::Init,
            r matches Ok(q) ==> q.session() == handle,
    {
        if handle == 0 {
            Err(CurlError::Init)
        } else {
            Ok(Request { handle })
        }
    }

    /// The native session this request owns; never zero.
    pub fn handle(&self) -> (r: usize)
        ensures
            r == self.session(),
            r != 0,
    {
        proof { use_type_invariant(self); }
        self.handle
    }

    /// The engine call that sets `opt` to `x` on this session. Which value
    /// suits which option is the caller's affair: the engine's setter is
    /// untyped, and nothing here checks the pairing.
    #[allow(non_snake_case)]
    pub fn setOpt(&self, opt: CurlOption, x: OptionValue) -> (r: EngineCall)
        ensures
            r == (EngineCall::SetOption { handle: self.session(), option: opt, value: x }),
    {
        EngineCall::SetOption { handle: self.handle, option: opt, value: x }
    }

    /// The engine call that runs this session with the options set so far.
    pub fn execute(&self) -> (r: EngineCall)
        ensures
            r == (EngineCall::Perform { handle: self.session() }),
    {
        EngineCall::Perform { handle: self.handle }
    }

    fn transfer<'a>(&'a self, op: Operation, url: String, path: String, data: String) -> (r: Transfer<'a>)
        ensures
            r.wf(),
            r.op() == op,
            r.session() == self.session(),
            r.url() == url,
            r.path() == path,
            r.data() == data,
            r.fresh(),
    {
        Transfer {
            request: self,
            op,
            url,
            path,
            data,
            size: 0,
            next: 0,
            phase: Phase::Start,
            status: CURLE_OK,
            performed: false,
            body: Vec::new(),
            log: FileWriteLog::new(),
            engine_used: false,
            file_failed: false,
            reset_done: false,
            chunks: Ghost(Seq::empty()),
        }
    }

    /// HTTP GET on `url`; on success the transfer finishes with the received
    /// bytes read as text.
    pub fn get<'a>(&'a self, url: &str) -> (r: Transfer<'a>)
        ensures
            r.wf(),
            r.fresh(),
            r.op() == Operation::Get,
            r.session() == self.session(),
            r.url()@ == url@,
            r.plan() == get_plan(r.url()),
    {
        self.transfer(Operation::Get, url.to_owned(), String::new(), String::new())
    }

    /// Saves what `url` returns into the file at `file_path`, which is
    /// created (or truncated) before the engine is involved.
    pub fn download<'a>(&'a self, url: &str, file_path: &str) -> (r: Transfer<'a>)
        ensures
            r.wf(),
            r.fresh(),
            r.op() == Operation::Download,
            r.session() == self.session(),
            r.url()@ == url@,
            r.path()@ == file_path@,
            r.plan() == download_plan(r.url()),
    {
        self.transfer(Operation::Download, url.to_owned(), file_path.to_owned(), String::new())
    }

    /// HTTP POST on `url` with `data` as the body, passed on unread (for
    /// instance "lang=rust&project=curl").
    pub fn post<'a>(&'a self, url: &str, data: &str) -> (r: Transfer<'a>)
        ensures
            r.wf(),
            r.fresh(),
            r.op() == Operation::Post,
            r.session() == self.session(),
            r.url()@ == url@,
            r.data()@ == data@,
            r.plan() == post_plan(r.url(), r.data()),
    {
        self.transfer(Operation::Post, url.to_owned(), String::new(), data.to_owned())
    }

    /// HTTP PUT on `url`, uploading the file `file_name`; its options are
    /// fixed once the file is open and its size known.
    pub fn put<'a>(&'a self, url: &str, file_name: &str) -> (r: Transfer<'a>)
        ensures
            r.wf(),
            r.fresh(),
            r.op() == Operation::Put,
            r.session() == self.session(),
            r.url()@ == url@,
            r.path()@ == file_name@,
    {
        self.transfer(Operation::Put, url.to_owned(), file_name.to_owned(), String::new())
    }

    /// Gives the session back: the one engine call that releases it. The
    /// request is consumed, and no transfer can still borrow it, so this
    /// happens once and nothing uses the session afterwards.
    pub fn release(self) -> (r: EngineCall)
        ensures
            r == (EngineCall::Cleanup { handle: self.session() }),
    {
        EngineCall::Cleanup { handle: self.handle }
    }
}

impl<'a> Transfer<'a> {
    pub closed spec fn wf(&self) -> bool {
        &&& self.next <= self.plan().len()
        &&& self.phase != Phase::Done ==> self.body@ == concat_chunks(self.chunks@)
        &&& (self.phase is Configure || self.phase is AwaitPerform) ==> self.reset_done
        &&& self.phase is AwaitPerform ==> self.next == self.plan().len()
        &&& self.file_failed ==> !self.engine_used && self.phase is Done
        &&& self.phase is AwaitDescription ==> self.status != CURLE_OK
        &&& self.phase is AwaitClear && !self.performed ==> self.status != CURLE_OK
        &&& !(self.phase is AwaitClear || self.phase is AwaitDescription || self.phase is Done)
            ==> !self.performed
        &&& (self.phase is Start || self.phase is AwaitFile) ==> !self.engine_used
            && !self.file_failed && self.next == 0 && !self.reset_done
        &&& self.phase is AwaitReset ==> self.next == 0 && !self.file_failed
        &&& self.op != Operation::Get ==> self.body@.len() == 0
        &&& self.op != Operation::Download ==> !self.log.failed
    }

    /// A transfer that has asked nothing and received nothing.
    pub open spec fn fresh(&self) -> bool {
        &&& self.phase_spec() == Phase::Start
        &&& self.next() == 0
        &&& self.body().len() == 0
        &&& self.delivered().len() == 0
        &&& !self.reset_done_spec()
        &&& self.log() == FileWriteLog { written: 0, failed: false }
        &&& !self.engine_used_spec()
        &&& !self.file_failed_spec()
    }

    pub closed spec fn op(&self) -> Operation {
        self.op
    }

    pub closed spec fn session(&self) -> usize {
        self.request.session()
    }

    /// The request this transfer belongs to.
    pub closed spec fn owner(&self) -> &'a Request {
        self.request
    }

    pub closed spec fn url(&self) -> String {
        self.url
    }

    pub closed spec fn path(&self) -> String {
        self.path
    }

    pub closed spec fn data(&self) -> String {
        self.data
    }

    pub closed spec fn size(&self) -> i64 {
        self.size
    }

    /// The options this transfer sets, in order.
    pub closed spec fn plan(&self) -> Seq<(CurlOption, OptionValue)> {
        plan_of(self.op, self.url, self.data, self.size)
    }

    /// How many options have been handed to the engine so far.
    pub closed spec fn next(&self) -> usize {
        self.next
    }

    pub closed spec fn phase_spec(&self) -> Phase {
        self.phase
    }

    /// The status the engine last reported: of the run once `Perform` is
    /// done, of the refused option otherwise.
    pub closed spec fn status(&self) -> u32 {
        self.status
    }

    /// Whether the engine has run the transfer.
    pub closed spec fn performed_spec(&self) -> bool {
        self.performed
    }

    /// The bytes the in-memory sink has collected.
    pub closed spec fn body(&self) -> Seq<u8> {
        self.body@
    }

    /// The chunks the in-memory sink has taken, in delivery order.
    pub closed spec fn delivered(&self) -> Seq<Seq<u8>> {
        self.chunks@
    }

    /// Whether the session's options have been reset for this transfer.
    pub closed spec fn reset_done_spec(&self) -> bool {
        self.reset_done
    }

    pub closed spec fn log(&self) -> FileWriteLog {
        self.log
    }

    /// Whether the transfer has ever asked for a call into the engine.
    pub closed spec fn engine_used_spec(&self) -> bool {
        self.engine_used
    }

    /// Whether the local file could not be prepared.
    pub closed spec fn file_failed_spec(&self) -> bool {
        self.file_failed
    }

    /// What stays fixed over the life of a transfer.
    pub open spec fn same_request(&self, other: &Transfer<'a>) -> bool {
        &&& self.owner() == other.owner()
        &&& self.op() == other.op()
        &&& self.session() == other.session()
        &&& self.url() == other.url()
        &&& self.path() == other.path()
        &&& self.data() == other.data()
    }

    pub fn phase(&self) -> (r: Phase)
        ensures
            r == self.phase_spec(),
    {
        self.phase
    }

    /// Whether the transfer has asked for any call into the engine.
    pub fn engine_used(&self) -> (r: bool)
        ensures
            r == self.engine_used_spec(),
    {
        self.engine_used
    }

    /// Whether preparing the local file failed.
    pub fn file_failed(&self) -> (r: bool)
        ensures
            r == self.file_failed_spec(),
    {
        self.file_failed
    }

    /// The options this transfer sets, so far as they are known.
    pub fn options(&self) -> (r: Vec<(CurlOption, OptionValue)>)
        ensures
            r@ == self.plan(),
    {
        let mut r: Vec<(CurlOption, OptionValue)> = Vec::new();
        let n = self.plan_len();
        let mut i: usize = 0;
        while i < n
            invariant
                n == self.plan().len(),
                i <= n,
                r@ == self.plan().subrange(0, i as int),
            decreases n - i,
        {
            let entry = self.option_at(i);
            r.push(entry);
            i = i + 1;
            assert(self.plan().subrange(0, i as int) == self.plan().subrange(0, i - 1) + seq![
                self.plan()[i - 1],
            ]);
        }
        assert(self.plan().subrange(0, n as int) == self.plan());
        r
    }

    /// Asks for a call into the engine, and remembers that it did.
    fn call(&mut self, c: EngineCall) -> (r: Step)
        requires
            old(self).wf(),
            !old(self).file_failed,
        ensures
            r == Step::Engine(c),
            *final(self) == (Transfer { engine_used: true, ..*old(self) }),
    {
        self.engine_used = true;
        Step::Engine(c)
    }

    /// Ends the transfer with `outcome`.
    fn finish(&mut self, outcome: Result<Option<String>, CurlError>) -> (r: Step)
        ensures
            r == Step::Finished(outcome),
            *final(self) == (Transfer { phase: Phase::Done, ..*old(self) }),
    {
        self.phase = Phase::Done;
        Step::Finished(outcome)
    }

    /// Hands the engine the next option of the plan, or runs the transfer
    /// once every option is set.
    fn configure_next(&mut self) -> (r: Step)
        requires
            old(self).wf(),
            !old(self).file_failed,
            old(self).reset_done,
            old(self).phase != Phase::Done,
            !old(self).performed,
        ensures
            final(self).wf(),
            final(self).same_request(old(self)),
            final(self).engine_used_spec(),
            final(self).body() == old(self).body(),
            final(self).log() == old(self).log(),
            final(self).delivered() == old(self).delivered(),
            final(self).reset_done_spec(),
            final(self).plan() == old(self).plan(),
            final(self).file_failed_spec() == old(self).file_failed_spec(),
            old(self).next() < old(self).plan().len() ==> r == Step::Engine(
                EngineCall::SetOption {
                    handle: old(self).session(),
                    option: old(self).plan()[old(self).next() as int].0,
                    value: old(self).plan()[old(self).next() as int].1,
                },
            ) && final(self).phase_spec() == Phase::Configure && final(self).next() == old(
                self,
            ).next() + 1,
            old(self).next() >= old(self).plan().len() ==> r == Step::Engine(
                EngineCall::Perform { handle: old(self).session() },
            ) && final(self).phase_spec() == Phase::AwaitPerform,
    {
        let handle = self.request.handle();
        if self.next < self.plan_len() {
            let (option, value) = self.option_at(self.next);
            self.next = self.next + 1;
            self.phase = Phase::Configure;
            self.call(EngineCall::SetOption { handle, option, value })
        } else {
            self.phase = Phase::AwaitPerform;
            self.call(EngineCall::Perform { handle })
        }
    }

    /// Takes the driver's report of the last step and says what to do next.
    pub fn advance(&mut self, event: Event) -> (r: Step)
        requires
            old(self).wf(),
        ensures
            final(self).wf(),
            final(self).same_request(old(self)),
            final(self).phase_spec() != Phase::Done ==> final(self).body() == old(self).body(),
            final(self).delivered() == old(self).delivered(),
            final(self).log() == old(self).log(),
            old(self).reset_done_spec() ==> final(self).reset_done_spec(),
            old(self).engine_used_spec() ==> final(self).engine_used_spec(),
            calls_engine(r) ==> final(self).engine_used_spec(),
            !(r matches Step::Engine(EngineCall::Cleanup { .. })),
            !(old(self).phase_spec() == Phase::AwaitFile && old(self).op() == Operation::Put)
                ==> final(self).plan() == old(self).plan(),
            !expects(old(self).phase_spec(), old(self).op(), event) ==> r == Step::Finished(
                Err(CurlError::Sequence),
            ) && final(self).phase_spec() == Phase::Done,
            // the first step
            old(self).phase_spec() == Phase::Start && event is Begin ==> {
                &&& old(self).op() == Operation::Download ==> r == (Step::CreateFile {
                    path: old(self).path(),
                }) && final(self).phase_spec() == Phase::AwaitFile
                &&& old(self).op() == Operation::Put ==> r == (Step::OpenUpload {
                    path: old(self).path(),
                }) && final(self).phase_spec() == Phase::AwaitFile
                &&& (old(self).op() == Operation::Get || old(self).op() == Operation::Post)
                    ==> r == Step::Engine(EngineCall::Reset { handle: old(self).session() })
                    && final(self).phase_spec() == Phase::AwaitReset
            },
            // the local file
            old(self).phase_spec() == Phase::AwaitFile ==> (event matches Event::FileFailed {
                detail,
            } ==> r == Step::Finished(Err(CurlError::FileSystem { detail }))
                && final(self).phase_spec() == Phase::Done && final(self).file_failed_spec()
                && !final(self).engine_used_spec()),
            old(self).phase_spec() == Phase::AwaitFile && old(self).op() == Operation::Download
                && event is FileReady ==> r == Step::Engine(
                EngineCall::Reset { handle: old(self).session() },
            ) && final(self).phase_spec() == Phase::AwaitReset,
            old(self).phase_spec() == Phase::AwaitFile && old(self).op() == Operation::Put ==> (
            event matches Event::UploadReady { size } ==> {
                &&& size <= i64::MAX ==> final(self).size() == size as i64 && final(self).plan()
                    == put_plan(old(self).url(), size as i64) && r == Step::Engine(
                    EngineCall::Reset { handle: old(self).session() },
                ) && final(self).phase_spec() == Phase::AwaitReset
                &&& size > i64::MAX ==> (r matches Step::Finished(Err(CurlError::FileSystem { .. })))
                    && final(self).phase_spec() == Phase::Done && final(self).file_failed_spec()
                    && !final(self).engine_used_spec()
            }),
            // the options are back at their defaults: the plan starts
            old(self).phase_spec() == Phase::AwaitReset && event is ResetDone ==> r == Step::Engine(
                EngineCall::SetOption {
                    handle: old(self).session(),
                    option: old(self).plan()[0].0,
                    value: old(self).plan()[0].1,
                },
            ) && final(self).phase_spec() == Phase::Configure && final(self).next() == 1
                && final(self).reset_done_spec(),
            // configuring
            old(self).phase_spec() == Phase::Configure ==> (event matches Event::OptionSet {
                status,
            } ==> {
                &&& status != CURLE_OK ==> r == Step::Engine(
                    EngineCall::Reset { handle: old(self).session() },
                ) && final(self).phase_spec() == Phase::AwaitClear && final(self).status() == status
                    && !final(self).performed_spec()
                &&& status == CURLE_OK && old(self).next() < old(self).plan().len() ==> r
                    == Step::Engine(
                    EngineCall::SetOption {
                        handle: old(self).session(),
                        option: old(self).plan()[old(self).next() as int].0,
                        value: old(self).plan()[old(self).next() as int].1,
                    },
                ) && final(self).phase_spec() == Phase::Configure && final(self).next() == old(
                    self,
                ).next() + 1
                &&& status == CURLE_OK && old(self).next() >= old(self).plan().len() ==> r
                    == Step::Engine(EngineCall::Perform { handle: old(self).session() })
                    && final(self).phase_spec() == Phase::AwaitPerform
            }),
            // the transfer has run: its options are cleared before anything else
            old(self).phase_spec() == Phase::AwaitPerform ==> (event matches Event::Performed {
                status,
            } ==> r == Step::Engine(EngineCall::Reset { handle: old(self).session() })
                && final(self).phase_spec() == Phase::AwaitClear && final(self).status() == status
                && final(self).performed_spec()),
            // the options are cleared: the outcome
            old(self).phase_spec() == Phase::AwaitClear && event is ResetDone ==> {
                &&& old(self).performed_spec() && old(self).log().failed ==> r == Step::Finished(
                    Err(CurlError::SinkWrite { written: old(self).log().written }),
                ) && final(self).phase_spec() == Phase::Done
                &&& !(old(self).performed_spec() && old(self).log().failed) && old(self).status()
                    != CURLE_OK ==> r == Step::Engine(EngineCall::Describe { code: old(self).status() })
                    && final(self).phase_spec() == Phase::AwaitDescription
                    && final(self).status() == old(self).status()
                &&& old(self).performed_spec() && !old(self).log().failed && old(self).status()
                    == CURLE_OK && old(self).op() == Operation::Get ==> final(self).phase_spec()
                    == Phase::Done && ((r matches Step::Finished(Ok(Some(_)))) <==> valid_utf8(
                    concat_chunks(old(self).delivered()),
                )) && (r matches Step::Finished(Ok(Some(text))) ==> text@ == decode_utf8(
                    concat_chunks(old(self).delivered()),
                )) && (!valid_utf8(concat_chunks(old(self).delivered())) ==> r == Step::Finished(
                    Err(CurlError::Decode),
                ))
                &&& old(self).performed_spec() && !old(self).log().failed && old(self).status()
                    == CURLE_OK && old(self).op() != Operation::Get ==> r == Step::Finished(Ok(None))
                    && final(self).phase_spec() == Phase::Done
            },
            // the engine has described its failure
            old(self).phase_spec() == Phase::AwaitDescription ==> (event matches Event::Described {
                detail,
            } ==> r == Step::Finished(
                Err(CurlError::Engine { code: old(self).status(), detail }),
            ) && final(self).phase_spec() == Phase::Done),
    {
        match (self.phase, event) {
            (Phase::Start, Event::Begin) => {
                match self.op {
                    Operation::Download => {
                        self.phase = Phase::AwaitFile;
                        Step::CreateFile { path: self.path.clone() }
                    },
                    Operation::Put => {
                        self.phase = Phase::AwaitFile;
                        Step::OpenUpload { path: self.path.clone() }
                    },
                    _ => {
                        self.phase = Phase::AwaitReset;
                        let handle = self.request.handle();
                        self.call(EngineCall::Reset { handle })
                    },
                }
            },
            (Phase::AwaitReset, Event::ResetDone) => {
                self.reset_done = true;
                self.configure_next()
            },
            (Phase::AwaitFile, Event::FileFailed { detail }) => {
                self.file_failed = true;
                self.finish(Err(CurlError::FileSystem { detail }))
            },
            (Phase::AwaitFile, Event::FileReady) if self.op == Operation::Download => {
                self.phase = Phase::AwaitReset;
                let handle = self.request.handle();
                self.call(EngineCall::Reset { handle })
            },
            (Phase::AwaitFile, Event::UploadReady { size }) if self.op == Operation::Put => {
                if size <= i64::MAX as u64 {
                    self.size = size as i64;
                    self.phase = Phase::AwaitReset;
                    let handle = self.request.handle();
                    self.call(EngineCall::Reset { handle })
                } else {
                    self.file_failed = true;
                    proof { reveal_strlit("file too large to upload"); }
                    self.finish(Err(CurlError::FileSystem { detail: "file too large to upload".to_owned() }))
                }
            },
            (Phase::Configure, Event::OptionSet { status }) => {
                if status != CURLE_OK {
                    self.status = status;
                    self.phase = Phase::AwaitClear;
                    let handle = self.request.handle();
                    self.call(EngineCall::Reset { handle })
                } else {
                    self.configure_next()
                }
            },
            (Phase::AwaitPerform, Event::Performed { status }) => {
                self.status = status;
                self.performed = true;
                self.phase = Phase::AwaitClear;
                let handle = self.request.handle();
                self.call(EngineCall::Reset { handle })
            },
            (Phase::AwaitClear, Event::ResetDone) => {
                let status = self.status;
                if self.performed && self.log.failed {
                    let written = self.log.written;
                    self.finish(Err(CurlError::SinkWrite { written }))
                } else if status != CURLE_OK {
                    self.phase = Phase::AwaitDescription;
                    self.call(EngineCall::Describe { code: status })
                } else if self.op == Operation::Get {
                    let mut bytes: Vec<u8> = Vec::new();
                    std::mem::swap(&mut bytes, &mut self.body);
                    let decoded = decode_body(bytes);
                    match decoded {
                        Ok(text) => self.finish(Ok(Some(text))),
                        Err(e) => self.finish(Err(e)),
                    }
                } else {
                    self.finish(Ok(None))
                }
            },
            (Phase::AwaitDescription, Event::Described { detail }) => {
                let e = translate(self.status, detail);
                self.finish(Err(e))
            },
            _ => self.finish(Err(CurlError::Sequence)),
        }
    }

    /// Everything but the sinks stays as it was.
    pub open spec fn same_state(&self, other: &Transfer<'a>) -> bool {
        &&& self.same_request(other)
        &&& self.reset_done_spec() == other.reset_done_spec()
        &&& self.size() == other.size()
        &&& self.next() == other.next()
        &&& self.phase_spec() == other.phase_spec()
        &&& self.status() == other.status()
        &&& self.performed_spec() == other.performed_spec()
        &&& self.engine_used_spec() == other.engine_used_spec()
        &&& self.file_failed_spec() == other.file_failed_spec()
    }

    /// The write callback's entry for the in-memory sink. While a GET runs,
    /// the chunk is appended and all of it reported taken; otherwise nothing
    /// is kept and zero is reported, which makes the engine stop.
    pub fn deliver(&mut self, chunk: &[u8]) -> (r: usize)
        requires
            old(self).wf(),
        ensures
            final(self).wf(),
            final(self).same_state(old(self)),
            final(self).log() == old(self).log(),
            old(self).phase_spec() == Phase::AwaitPerform && old(self).op() == Operation::Get
                ==> final(self).body() == old(self).body() + chunk@ && final(self).delivered()
                == old(self).delivered().push(chunk@) && r == chunk@.len(),
            !(old(self).phase_spec() == Phase::AwaitPerform && old(self).op() == Operation::Get)
                ==> final(self).body() == old(self).body() && final(self).delivered() == old(
                self,
            ).delivered() && r == 0,
    {
        if self.phase == Phase::AwaitPerform && self.op == Operation::Get {
            let n = append_chunk(&mut self.body, chunk);
            proof {
                assert(self.chunks@.push(chunk@).drop_last() =~= self.chunks@);
            }
            self.chunks = Ghost(self.chunks@.push(chunk@));
            n
        } else {
            0
        }
    }

    /// Whether the write callback should write its chunk to the file: only
    /// while a download runs and no earlier write has failed.
    pub fn accepts_file_write(&self) -> (r: bool)
        ensures
            r == (self.phase_spec() == Phase::AwaitPerform && self.op() == Operation::Download
                && !self.log().failed),
    {
        self.phase == Phase::AwaitPerform && self.op == Operation::Download && self.log.accepts()
    }

    /// The write callback's entry for the file sink: records whether writing
    /// `len` bytes succeeded and returns the count to report to the engine.
    /// Outside a running download it records nothing and reports zero.
    pub fn record_file_write(&mut self, len: usize, ok: bool) -> (r: usize)
        requires
            old(self).wf(),
        ensures
            final(self).wf(),
            final(self).same_state(old(self)),
            final(self).body() == old(self).body(),
            final(self).delivered() == old(self).delivered(),
            old(self).phase_spec() == Phase::AwaitPerform && old(self).op() == Operation::Download
                ==> final(self).log() == recorded(old(self).log(), len, ok) && r == reported(
                old(self).log(),
                len,
                ok,
            ),
            !(old(self).phase_spec() == Phase::AwaitPerform && old(self).op()
                == Operation::Download) ==> final(self).log() == old(self).log() && r == 0,
    {
        if self.phase == Phase::AwaitPerform && self.op == Operation::Download {
            self.log.record(len, ok)
        } else {
            0
        }
    }

    fn plan_len(&self) -> (r: usize)
        ensures
            r == self.plan().len(),
    {
        match self.op {
            Operation::Get => 3,
            Operation::Download => 3,
            Operation::Post => 2,
            Operation::Put => 5,
        }
    }

    fn option_at(&self, i: usize) -> (r: (CurlOption, OptionValue))
        requires
            i < self.plan().len(),
        ensures
            r == self.plan()[i as int],
    {
        match self.op {
            Operation::Get | Operation::Download => {
                let kind = if self.op == Operation::Get {
                    SinkKind::Buffer
                } else {
                    SinkKind::File
                };
                if i == 0 {
                    (CurlOption::Url, OptionValue::Text(self.url.clone()))
                } else if i == 1 {
                    (CurlOption::WriteFunction, OptionValue::Callback(kind))
                } else {
                    (CurlOption::WriteData, OptionValue::Sink(kind))
                }
            },
            Operation::Post => {
                if i == 0 {
                    (CurlOption::Url, OptionValue::Text(self.url.clone()))
                } else {
                    (CurlOption::PostFields, OptionValue::Text(self.data.clone()))
                }
            },
            Operation::Put => {
                if i == 0 {
                    (CurlOption::Upload, OptionValue::Long(1))
                } else if i == 1 {
                    (CurlOption::Put, OptionValue::Long(1))
                } else if i == 2 {
                    (CurlOption::Url, OptionValue::Text(self.url.clone()))
                } else if i == 3 {
                    (CurlOption::ReadData, OptionValue::Source)
                } else {
                    (CurlOption::InFileSizeLarge, OptionValue::Size(self.size))
                }
            },
        }
    }
}

/// A transfer whose local file could not be prepared has never asked for a
/// call into the engine. Engine use, once asked for, is never forgotten
/// (see `advance`), so within one operation the two exclude each other.
pub proof fn law_file_failure_excludes_engine<'a>(t: Transfer<'a>)
    requires
        t.wf(),
    ensures
        !(t.file_failed_spec() && t.engine_used_spec()),
{
}

/// A transfer that has been run, or whose option was refused, has its
/// session's options cleared before it describes a failure or finishes: no
/// sink, body or upload source of it stays set on the session.
pub proof fn law_options_cleared_after_engine_work<'a>(t: Transfer<'a>)
    requires
        t.wf(),
        t.phase_spec() == Phase::AwaitClear,
        !t.performed_spec(),
    ensures
        t.status() != CURLE_OK,
{
}

/// A transfer asks the engine to run only once the session's options have
/// been reset and every option of its own plan has been set.
pub proof fn law_perform_follows_reset_and_plan<'a>(t: Transfer<'a>)
    requires
        t.wf(),
        t.phase_spec() == Phase::AwaitPerform,
    ensures
        t.reset_done_spec(),
        t.next() == t.plan().len(),
{
}

/// Two GETs whose engines deliver the same bytes, however split into chunks,
/// end with the same outcome: it depends on the concatenation alone.
pub proof fn law_get_outcome_ignores_chunking(c1: Seq<Seq<u8>>, c2: Seq<Seq<u8>>)
    requires
        concat_chunks(c1) == concat_chunks(c2),
    ensures
        valid_utf8(concat_chunks(c1)) == valid_utf8(concat_chunks(c2)),
        decode_utf8(concat_chunks(c1)) == decode_utf8(concat_chunks(c2)),
{
}

/// The size a PUT hands the engine is the size of its file, as measured,
/// and no other size option is set.
pub proof fn law_upload_size_is_file_size(url: String, size: u64)
    requires
        size <= i64::MAX,
    ensures
        put_plan(url, size as i64).len() == 5,
        put_plan(url, size as i64)[4] == (CurlOption::InFileSizeLarge, OptionValue::Size(size as i64)),
        (size as i64) as int == size as int,
        forall|i: int|
            0 <= i < 5 && (#[trigger] put_plan(url, size as i64)[i]).0 == CurlOption::InFileSizeLarge
                ==> i == 4,
{
}

} // verus!
