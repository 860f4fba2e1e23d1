//! The daemon handshake strategy: one privileged daemon, picked by kernel
//! version, attaches probes on request. A request is one line on the
//! daemon's input, `<pid>`, and the answer one line on its output,
//! `<pid>:succeeded` or `<pid>:failed`.
use crate::control::Control;
use crate::error::response_view;
use crate::error::text_result_view;
use crate::error::CommError;
use crate::error::CommErrorView;
use crate::host::Command;
use crate::host::CommandView;
use crate::host::Settings;
use crate::kernel::daemon_variant;
use crate::kernel::parse_release;
use crate::kernel::release_version;
use crate::kernel::version;
use crate::kernel::version_at_least;
use crate::pattern::captures;
use crate::pattern::compile;
use crate::pattern::found_view;
use crate::pattern::groups_view;
use crate::pattern::regex_captures;
use crate::pattern::regex_compiles;
use crate::text::decimal;
use crate::text::decimal_string;
use crate::text::parse_decimal;
use crate::text::parse_pid;
use procfs::sys::kernel::Version;
use vstd::prelude::*;
use vstd::string::*;

verus! {

/// The form of a response line: a pid of one to twenty digits, a colon and
/// the outcome.
pub const RESPONSE_PATTERN: &'static str = "(\\d{1,20}):(succeeded|failed)";

/// How often the daemon's output is polled for one response.
pub const READ_ATTEMPTS: u32 = 10;

/// Seconds between two polls of the daemon's output.
pub const READ_INTERVAL_SECS: u64 = 1;

/// Seconds between two looks of the watchdog at the daemon.
pub const WATCH_INTERVAL_SECS: u64 = 10;

/// Seconds that the daemon is given to start reading its input.
pub const STARTUP_DELAY_SECS: u64 = 2;

/// The pid that a run of digits writes, if it is a non-empty run of decimal
/// digits whose value fits.
pub open spec fn pid_of(digits: Seq<char>) -> Option<i32> {
    match parse_decimal(digits) {
        Some(n) => if n <= i32::MAX {
            Some(n as i32)
        } else {
            None
        },
        None => None,
    }
}

/// What the groups of a match say: the first group is the pid, the second
/// the outcome.
pub open spec fn response_of(found: Option<Seq<Option<Seq<char>>>>, response: Seq<char>) -> Result<
    (i32, bool),
    CommErrorView,
> {
    match found {
        None => Err(CommErrorView::ResponseNotFound { response }),
        Some(groups) => if groups.len() != 3 || groups[1].is_none() {
            Err(CommErrorView::ResponseFormat { response })
        } else if pid_of(groups[1].unwrap()).is_none() {
            Err(CommErrorView::ResponsePid { digits: groups[1].unwrap() })
        } else if groups[2] == Some("succeeded"@) {
            Ok((pid_of(groups[1].unwrap()).unwrap(), true))
        } else if groups[2] == Some("failed"@) {
            Ok((pid_of(groups[1].unwrap()).unwrap(), false))
        } else {
            Err(CommErrorView::ResponseFormat { response })
        },
    }
}

/// What a response line says: the leftmost place where the line has the form
/// of a response decides.
pub open spec fn parsed_response(response: Seq<char>) -> Result<(i32, bool), CommErrorView> {
    if regex_compiles(RESPONSE_PATTERN@) {
        response_of(regex_captures(RESPONSE_PATTERN@, response), response)
    } else {
        Err(CommErrorView::Pattern)
    }
}

/// The message for an attach that the daemon refused.
pub open spec fn refusal(pid: i32) -> Seq<char> {
    "target pid: "@ + decimal(pid as int) + " attach failed"@
}

/// What one line read from the daemon means for the attach of `pid`: `line`
/// is what was read, empty at the end of the stream, and `parsed` what the
/// line says. The empty text stands for success, any other text says why the
/// daemon refused.
pub open spec fn line_verdict(pid: i32, line: Seq<char>, parsed: Result<(i32, bool), CommErrorView>)
    -> Result<Seq<char>, CommErrorView> {
    if line.len() == 0 {
        Err(CommErrorView::ReadEof)
    } else {
        match parsed {
            Err(e) => Err(e),
            Ok((answered, success)) => if answered != pid {
                Err(CommErrorView::PidMismatch { expect: pid, answered })
            } else if success {
                Ok(Seq::empty())
            } else {
                Ok(refusal(pid))
            },
        }
    }
}

/// What the host reports while a response is read.
#[derive(Debug, PartialEq, Eq)]
pub enum ReadEvent {
    /// A response is about to be read.
    Begin,
    /// The output was polled: `len` bytes are waiting.
    Buffered { len: usize },
    /// The pause after an empty poll is over.
    Slept,
    /// A line was read; `text` is empty at the end of the stream.
    Line { text: String },
    /// Polling or reading failed.
    Failed { reason: String },
}

/// The mathematical value of a `ReadEvent`.
pub ghost enum ReadEventView {
    Begin,
    Buffered { len: usize },
    Slept,
    Line { text: Seq<char> },
    Failed { reason: Seq<char> },
}

impl View for ReadEvent {
    type V = ReadEventView;

    open spec fn view(&self) -> ReadEventView {
        match *self {
            ReadEvent::Begin => ReadEventView::Begin,
            ReadEvent::Buffered { len } => ReadEventView::Buffered { len },
            ReadEvent::Slept => ReadEventView::Slept,
            ReadEvent::Line { text } => ReadEventView::Line { text: text@ },
            ReadEvent::Failed { reason } => ReadEventView::Failed { reason: reason@ },
        }
    }
}

/// What the host has to do next while a response is read.
#[derive(Debug, PartialEq, Eq)]
pub enum ReadStep {
    /// Poll the daemon's output and report `Buffered`.
    Poll,
    /// Pause for `secs` seconds and report `Slept`.
    Sleep { secs: u64 },
    /// Read one line and report `Line`.
    ReadLine,
    /// The exchange is over, with this result.
    Done(Result<String, CommError>),
}

/// The mathematical value of a `ReadStep`.
pub ghost enum ReadStepView {
    Poll,
    Sleep { secs: u64 },
    ReadLine,
    Done(Result<Seq<char>, CommErrorView>),
}

impl View for ReadStep {
    type V = ReadStepView;

    open spec fn view(&self) -> ReadStepView {
        match *self {
            ReadStep::Poll => ReadStepView::Poll,
            ReadStep::Sleep { secs } => ReadStepView::Sleep { secs },
            ReadStep::ReadLine => ReadStepView::ReadLine,
            ReadStep::Done(r) => ReadStepView::Done(text_result_view(r)),
        }
    }
}

/// One step of reading a response: from the number of polls made so far and
/// what the host reports to the new number of polls and what to do next.
pub open spec fn read_step(polls: u32, pid: i32, event: ReadEventView) -> (u32, ReadStepView) {
    match event {
        ReadEventView::Begin => (1, ReadStepView::Poll),
        ReadEventView::Buffered { len } => if len == 0 {
            (polls, ReadStepView::Sleep { secs: READ_INTERVAL_SECS })
        } else {
            (polls, ReadStepView::ReadLine)
        },
        ReadEventView::Slept => if polls < READ_ATTEMPTS {
            ((polls + 1) as u32, ReadStepView::Poll)
        } else {
            (polls, ReadStepView::Done(Err(CommErrorView::ReadTimeout { pid })))
        },
        ReadEventView::Line { text } => (
            polls,
            ReadStepView::Done(line_verdict(pid, text, parsed_response(text))),
        ),
        ReadEventView::Failed { reason } => (
            polls,
            ReadStepView::Done(Err(CommErrorView::Io { reason })),
        ),
    }
}

/// Where the exchange stands after the daemon has stayed silent through
/// `rounds` polls, each followed by its pause.
pub open spec fn after_silence(pid: i32, rounds: nat) -> (u32, ReadStepView)
    decreases rounds,
{
    if rounds == 0 {
        read_step(0, pid, ReadEventView::Begin)
    } else {
        let polled = after_silence(pid, (rounds - 1) as nat).0;
        let paused = read_step(polled, pid, ReadEventView::Buffered { len: 0 }).0;
        read_step(paused, pid, ReadEventView::Slept)
    }
}

/// What the watchdog finds when it looks at the daemon.
#[derive(Clone, Copy, Debug, PartialEq, Eq, Structural)]
pub enum ChildStatus {
    /// The daemon is running.
    Running,
    /// The daemon has exited.
    Exited,
    /// The daemon's state could not be read.
    WaitFailed,
}

/// What the watchdog does after a look at the daemon.
#[derive(Clone, Copy, Debug, PartialEq, Eq, Structural)]
pub enum WatchStep {
    /// Kill the daemon as `kill_server` says and stop watching.
    Kill,
    /// Stop watching.
    Stop,
    /// Look again after `secs` seconds.
    Sleep { secs: u64 },
}

/// Whom a kill signal is sent to.
#[derive(Clone, Copy, Debug, PartialEq, Eq, Structural)]
pub enum KillTarget {
    /// The process group with this id.
    Group(i32),
    /// The process with this id.
    Process(i32),
}

/// The watchdog's rule: a stopped agent kills the daemon whatever its state;
/// else a daemon that has exited ends the watch, one whose state cannot be
/// read is killed, and one that runs is looked at again later.
pub open spec fn watch_rule(running: bool, child: ChildStatus) -> WatchStep {
    if !running {
        WatchStep::Kill
    } else {
        match child {
            ChildStatus::Exited => WatchStep::Stop,
            ChildStatus::Running => WatchStep::Sleep { secs: WATCH_INTERVAL_SECS },
            ChildStatus::WaitFailed => WatchStep::Kill,
        }
    }
}

/// The daemon handshake strategy.
pub struct EbpfMode {
    pub ctrl: Control,
    pub kernel_version: Version,
    pub settings: Settings,
    /// How often the daemon's output was polled for the response that is
    /// being read.
    pub polls: u32,
}

impl EbpfMode {
    /// Builds the strategy for the kernel whose release string is `release`,
    /// as `/proc/sys/kernel/osrelease` gives it. Fails where the string is no
    /// version or no daemon variant fits the kernel.
    pub fn new(ctrl: Control, release: &str, settings: Settings) -> (res: Result<EbpfMode, CommError>)
        ensures
            match release_version(release@) {
                None => res matches Err(e) && e@ == (CommErrorView::KernelVersion {
                    release: release@,
                }),
                Some(numbers) => if daemon_variant(version(numbers.0, numbers.1, numbers.2)).is_some() {
                    res matches Ok(mode) && mode.kernel_version == version(
                        numbers.0,
                        numbers.1,
                        numbers.2,
                    ) && mode.ctrl == ctrl && mode.settings == settings && mode.polls == 0
                } else {
                    res matches Err(e) && e@ == (CommErrorView::KernelNotSupported {
                        major: numbers.0,
                        minor: numbers.1,
                    })
                },
            },
    {
        let kernel_version = match Self::detect_kernel_version(release) {
            Ok(v) => v,
            Err(e) => {
                return Err(e);
            },
        };
        let ebpf_manager = EbpfMode { ctrl, kernel_version, settings, polls: 0 };
        match ebpf_manager.switch_bpf_main_process() {
            Ok(_) => Ok(ebpf_manager),
            Err(e) => Err(e),
        }
    }

    /// Reads the kernel version from a release string.
    pub fn detect_kernel_version(release: &str) -> (res: Result<Version, CommError>)
        ensures
            match release_version(release@) {
                Some(numbers) => res == Ok::<Version, CommError>(
                    version(numbers.0, numbers.1, numbers.2),
                ),
                None => res matches Err(e) && e@ == (CommErrorView::KernelVersion {
                    release: release@,
                }),
            },
    {
        match parse_release(release) {
            Some(v) => Ok(v),
            None => Err(CommError::KernelVersion { release: String::from_str(release) }),
        }
    }

    /// Picks the daemon variant for this kernel.
    ///
    ///   - from 4.14 up to 4.16: minimal support
    ///   - from 4.16 up to 5.2: http support without headers
    ///   - from 5.2 up to 5.8: http support with headers
    ///   - from 5.8 on: http support with headers, ring buffer
    pub fn switch_bpf_main_process(&self) -> (res: Result<String, CommError>)
        ensures
            match daemon_variant(self.kernel_version) {
                Some(variant) => res matches Ok(name) && name@ == variant,
                None => res matches Err(e) && e@ == (CommErrorView::KernelNotSupported {
                    major: self.kernel_version.major,
                    minor: self.kernel_version.minor,
                }),
            },
    {
        let name = if version_at_least(&self.kernel_version, &Version::new(5, 8, 0)) {
            "5.8"
        } else if version_at_least(&self.kernel_version, &Version::new(5, 2, 0)) {
            "5.2"
        } else if version_at_least(&self.kernel_version, &Version::new(4, 16, 0)) {
            "4.16"
        } else if version_at_least(&self.kernel_version, &Version::new(4, 14, 0)) {
            "4.14"
        } else {
            return Err(
                CommError::KernelNotSupported {
                    major: self.kernel_version.major,
                    minor: self.kernel_version.minor,
                },
            );
        };
        Ok(String::from_str(name))
    }

    /// Names the daemon to spawn: the variant for this kernel, without
    /// arguments. The host spawns it with piped input and output, watches it
    /// as `watch` says and waits `STARTUP_DELAY_SECS` before the first
    /// attach.
    pub fn start_server(&mut self) -> (res: Result<Command, CommError>)
        ensures
            final(self).kernel_version == old(self).kernel_version,
            final(self).settings == old(self).settings,
            final(self).ctrl == old(self).ctrl,
            final(self).polls == 0,
            match daemon_variant(old(self).kernel_version) {
                Some(variant) => res matches Ok(cmd) && cmd@ == (CommandView {
                    program: old(self).settings.golang_ebpf_bin@ + "_"@ + variant,
                    args: Seq::empty(),
                }),
                None => res matches Err(e) && e@ == (CommErrorView::KernelNotSupported {
                    major: old(self).kernel_version.major,
                    minor: old(self).kernel_version.minor,
                }),
            },
    {
        self.polls = 0;
        match self.switch_bpf_main_process() {
            Ok(variant) => {
                let program = self.settings.golang_ebpf(variant.as_str());
                let args: Vec<String> = Vec::new();
                proof {
                    assert(crate::host::texts(args@) =~= Seq::empty());
                }
                Ok(Command { program, args })
            },
            Err(e) => Err(e),
        }
    }

    /// One look of the watchdog: `running` is what the coordinator says,
    /// `child` what was found of the daemon.
    pub fn watch(running: bool, child: ChildStatus) -> (step: WatchStep)
        ensures
            step == watch_rule(running, child),
    {
        if !running {
            return WatchStep::Kill;
        }
        match child {
            ChildStatus::Exited => WatchStep::Stop,
            ChildStatus::Running => WatchStep::Sleep { secs: WATCH_INTERVAL_SECS },
            ChildStatus::WaitFailed => WatchStep::Kill,
        }
    }

    /// How the daemon is killed: first its process group, then the process
    /// itself, which covers a daemon that leads no group.
    pub fn kill_server(pid: i32) -> (targets: (KillTarget, KillTarget))
        ensures
            targets == (KillTarget::Group(pid), KillTarget::Process(pid)),
    {
        (KillTarget::Group(pid), KillTarget::Process(pid))
    }

    /// The request line for `pid`: the pid in decimal and a line feed.
    pub fn write_stdin(&self, pid: i32) -> (line: String)
        ensures
            line@ == decimal(pid as int) + "\n"@,
    {
        decimal_string(pid).concat("\n")
    }

    /// Takes what the groups of a match hold and gives the pid and the
    /// outcome that they write.
    pub fn interpret_captures(found: &Option<Vec<Option<String>>>, response: &String) -> (res:
        Result<(i32, bool), CommError>)
        ensures
            response_view(res) == response_of(found_view(*found), response@),
    {
        match found {
            None => Err(CommError::ResponseNotFound { response: response.clone() }),
            Some(groups) => {
                if groups.len() != 3 {
                    return Err(CommError::ResponseFormat { response: response.clone() });
                }
                proof {
                    assert(groups_view(groups@)[1] == match groups@[1] {
                        Some(text) => Some(text@),
                        None => None,
                    });
                    assert(groups_view(groups@)[2] == match groups@[2] {
                        Some(text) => Some(text@),
                        None => None,
                    });
                }
                let pid: i32 = match &groups[1] {
                    Some(digits) => match parse_pid(digits.as_str()) {
                        Some(pid) => pid,
                        None => {
                            return Err(CommError::ResponsePid { digits: digits.clone() });
                        },
                    },
                    None => {
                        return Err(CommError::ResponseFormat { response: response.clone() });
                    },
                };
                match &groups[2] {
                    Some(token) => {
                        if *token == String::from_str("succeeded") {
                            Ok((pid, true))
                        } else if *token == String::from_str("failed") {
                            Ok((pid, false))
                        } else {
                            Err(CommError::ResponseFormat { response: response.clone() })
                        }
                    },
                    None => Err(CommError::ResponseFormat { response: response.clone() }),
                }
            },
        }
    }

    /// Parses one response line of the daemon into the pid it answers for
    /// and whether the attach succeeded.
    pub fn parse_server_response(response: &String) -> (res: Result<(i32, bool), CommError>)
        ensures
            response_view(res) == parsed_response(response@),
    {
        let regex = match compile(RESPONSE_PATTERN) {
            Ok(regex) => regex,
            Err(_) => {
                return Err(CommError::Pattern);
            },
        };
        let found = captures(&regex, response.as_str());
        Self::interpret_captures(&found, response)
    }

    /// Judges one line read from the daemon for the attach of `pid`, given
    /// what the line was parsed to.
    pub fn judge_line(pid: i32, line: &str, parsed: Result<(i32, bool), CommError>) -> (res:
        Result<String, CommError>)
        ensures
            text_result_view(res) == line_verdict(pid, line@, response_view(parsed)),
    {
        if line.is_empty() {
            return Err(CommError::ReadEof);
        }
        match parsed {
            Err(e) => Err(e),
            Ok((answered, success)) => {
                if answered != pid {
                    Err(CommError::PidMismatch { expect: pid, answered })
                } else if success {
                    Ok(String::new())
                } else {
                    Ok(
                        String::from_str("target pid: ").concat(
                            decimal_string(pid).as_str(),
                        ).concat(" attach failed"),
                    )
                }
            },
        }
    }

    /// One step of reading the response for `pid`: takes what the host
    /// reports and says what to do next. The output is polled at most
    /// `READ_ATTEMPTS` times, with a pause after each empty poll; after the
    /// last pause the exchange ends with a timeout.
    pub fn read_stdout(&mut self, pid: i32, event: ReadEvent) -> (step: ReadStep)
        ensures
            (final(self).polls, step@) == read_step(old(self).polls, pid, event@),
            final(self).kernel_version == old(self).kernel_version,
            final(self).settings == old(self).settings,
            final(self).ctrl == old(self).ctrl,
    {
        match event {
            ReadEvent::Begin => {
                self.polls = 1;
                ReadStep::Poll
            },
            ReadEvent::Buffered { len } => {
                if len == 0 {
                    ReadStep::Sleep { secs: READ_INTERVAL_SECS }
                } else {
                    ReadStep::ReadLine
                }
            },
            ReadEvent::Slept => {
                if self.polls < READ_ATTEMPTS {
                    self.polls = self.polls + 1;
                    ReadStep::Poll
                } else {
                    ReadStep::Done(Err(CommError::ReadTimeout { pid }))
                }
            },
            ReadEvent::Line { text } => {
                let parsed = Self::parse_server_response(&text);
                ReadStep::Done(Self::judge_line(pid, text.as_str(), parsed))
            },
            ReadEvent::Failed { reason } => ReadStep::Done(Err(CommError::Io { reason })),
        }
    }

    /// Closes an attach with what was read from the daemon: the empty text
    /// means that the probe is attached, any other text that the daemon
    /// refused. A failure that leaves the daemon unusable makes the
    /// coordinator stop the agent before it is handed on.
    pub fn attach(&mut self, pid: i32, answer: Result<String, CommError>) -> (res: Result<
        bool,
        CommError,
    >)
        ensures
            final(self).kernel_version == old(self).kernel_version,
            final(self).settings == old(self).settings,
            final(self).polls == old(self).polls,
            match answer {
                Ok(text) => res == Ok::<bool, CommError>(text@.len() == 0) && final(self).ctrl
                    == old(self).ctrl,
                Err(e) => res matches Err(handed) && handed@ == e@ && if e.is_fatal() {
                    final(self).ctrl.stopped()
                } else {
                    final(self).ctrl == old(self).ctrl
                },
            },
    {
        match answer {
            Ok(text) => Ok(text.as_str().unicode_len() == 0),
            Err(e) => {
                if e.is_fatal() {
                    let _ = self.ctrl.stop();
                }
                Err(e)
            },
        }
    }
}

/// A daemon that stays silent is polled ten times, with a pause of one
/// second after each poll, and the tenth pause is followed by a timeout: the
/// wait for a response ends after ten seconds of silence.
pub proof fn silence_times_out(pid: i32, rounds: nat)
    requires
        rounds <= READ_ATTEMPTS,
    ensures
        rounds < READ_ATTEMPTS ==> after_silence(pid, rounds) == (
            (rounds + 1) as u32,
            ReadStepView::Poll,
        ),
        rounds == READ_ATTEMPTS ==> after_silence(pid, rounds) == (
            READ_ATTEMPTS,
            ReadStepView::Done(Err(CommErrorView::ReadTimeout { pid })),
        ),
        read_step((rounds + 1) as u32, pid, ReadEventView::Buffered { len: 0 }).1 == (
        ReadStepView::Sleep { secs: READ_INTERVAL_SECS }),
    decreases rounds,
{
    if rounds > 0 {
        silence_times_out(pid, (rounds - 1) as nat);
    }
}

/// Whatever the host reports, a response is polled for at most ten times
/// after its `Begin`: a step never raises the number of polls above ten, and
/// only a step that asks for a poll raises it.
pub proof fn polls_are_bounded(polls: u32, pid: i32, event: ReadEventView)
    requires
        polls <= READ_ATTEMPTS,
    ensures
        read_step(polls, pid, event).0 <= READ_ATTEMPTS,
        read_step(polls, pid, event).0 != polls ==> read_step(polls, pid, event).1
            == ReadStepView::Poll,
        event == ReadEventView::Slept && read_step(polls, pid, event).1 == ReadStepView::Poll
            ==> read_step(polls, pid, event).0 == polls + 1,
{
}

} // verus!
