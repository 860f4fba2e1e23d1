//! The shared-server strategy: one server inside the agent serves every
//! probe. Attaching a process means making the server's socket visible in
//! the process's mount namespace; commands travel over one shared queue.
use crate::channel::bounded_probe_commands;
use crate::channel::probe_queue_bound;
use crate::channel::send_message;
use crate::channel::CHANNEL_CAPACITY;
use crate::comm::RASPComm;
use crate::control::Control;
use crate::error::CommError;
use crate::error::CommErrorView;
use crate::host::parent_dir;
use crate::host::path_parent;
use crate::host::texts;
use crate::host::Command;
use crate::host::CommandView;
use crate::host::RunOutcome;
use crate::host::Settings;
use crate::text::decimal;
use crate::text::decimal_string;
use crossbeam::channel::Receiver;
use crossbeam::channel::Sender;
use vstd::prelude::*;
use vstd::string::*;

verus! {

/// The arguments of the mount helper: the pid, the directory to mount, where
/// to mount it, and the program that enters the namespace.
pub open spec fn mount_args(pid: i32, from: Seq<char>, to: Seq<char>, ns_enter: Seq<char>) -> Seq<
    Seq<char>,
> {
    seq![decimal(pid as int), from, to, ns_enter]
}

/// The arguments with which the namespace-entering program links
/// `linking_to` to `bind_path` inside the namespaces of `pid`.
pub open spec fn link_args(pid: i32, bind_path: Seq<char>, linking_to: Seq<char>) -> Seq<
    Seq<char>,
> {
    seq![
        "-t"@,
        decimal(pid as int),
        "-m"@,
        "-i"@,
        "-n"@,
        "-p"@,
        "/bin/ln"@,
        "-sf"@,
        bind_path,
        linking_to,
    ]
}

/// The run of the mount helper that mounts `from` at `to` in the mount
/// namespace of `pid`.
pub open spec fn mount_command(pid: i32, from: Seq<char>, to: Seq<char>, settings: Settings)
    -> CommandView {
    CommandView {
        program: settings.mount_script_bin@,
        args: mount_args(pid, from, to, settings.ns_enter_bin@),
    }
}

/// Whether a mount is needed after the root namespace was looked up:
/// `root_mnt` is what `/proc/1/ns/mnt` points at, or nothing when it could
/// not be read. A process outside the root namespace needs the mount, and so
/// does one of which this cannot be told.
pub open spec fn needs_mount(root_mnt: Option<Seq<char>>, pid_mntns: Seq<char>) -> bool {
    match root_mnt {
        Some(root) => root != pid_mntns,
        None => true,
    }
}

/// What the host has to do next while a process is attached.
#[derive(Debug, PartialEq, Eq)]
pub enum AttachStep {
    /// Run the mount helper and report how it ended to `after_mount`.
    Mount(Command),
    /// Run the link helper and report how it ended to `after_link`.
    Link(Command),
    /// Nothing is left to do.
    Done,
}

/// The mathematical value of an `AttachStep`.
pub ghost enum AttachStepView {
    Mount(CommandView),
    Link(CommandView),
    Done,
}

impl View for AttachStep {
    type V = AttachStepView;

    open spec fn view(&self) -> AttachStepView {
        match *self {
            AttachStep::Mount(c) => AttachStepView::Mount(c@),
            AttachStep::Link(c) => AttachStepView::Link(c@),
            AttachStep::Done => AttachStepView::Done,
        }
    }
}

/// Builds the run of the mount helper.
pub fn mount(pid: i32, from: &str, to: &str, settings: &Settings) -> (cmd: Command)
    ensures
        cmd@ == mount_command(pid, from@, to@, *settings),
{
    let mut args: Vec<String> = Vec::new();
    args.push(decimal_string(pid));
    args.push(String::from_str(from));
    args.push(String::from_str(to));
    args.push(settings.ns_enter_bin.clone());
    proof {
        assert(texts(args@) =~= mount_args(pid, from@, to@, settings.ns_enter_bin@));
    }
    Command { program: settings.mount_script_bin.clone(), args }
}

/// Judges the run of the mount helper: anything but a run that exited with
/// code 0 fails the attach.
pub fn mounted(outcome: RunOutcome) -> (res: Result<(), CommError>)
    ensures
        match outcome {
            RunOutcome::Exited { success, status, stdout, stderr } => if success {
                res is Ok
            } else {
                res matches Err(e) && e@ == (CommErrorView::MountScriptFailed {
                    status: status@,
                    stdout: stdout@,
                    stderr: stderr@,
                })
            },
            RunOutcome::NotRun { reason } => res matches Err(e) && e@ == (
            CommErrorView::CannotMount { reason: reason@ }),
        },
{
    match outcome {
        RunOutcome::Exited { success, status, stdout, stderr } => {
            if success {
                Ok(())
            } else {
                Err(CommError::MountScriptFailed { status, stdout, stderr })
            }
        },
        RunOutcome::NotRun { reason } => Err(CommError::CannotMount { reason }),
    }
}

/// Whether the process lives in the root mount namespace: `root_mnt` is what
/// `/proc/1/ns/mnt` points at, `pid_mntns` the namespace of the process.
pub fn check_need_mount(root_mnt: &String, pid_mntns: &String) -> (same: bool)
    ensures
        same == (root_mnt@ == pid_mntns@),
{
    *root_mnt == *pid_mntns
}

/// The shared-server strategy.
pub struct ThreadMode {
    pub ctrl: Control,
    pub log_level: String,
    /// Where the shared server listens.
    pub bind_path: String,
    /// An alias to publish for `bind_path` inside each namespace.
    pub linking_to: Option<String>,
    /// Whether the process attached last needed a mount.
    pub using_mount: bool,
    /// The queue that feeds the shared server.
    pub agent_to_probe_sender: Sender<(i32, String)>,
    pub settings: Settings,
}

impl ThreadMode {
    /// The link step for `pid`, or `Done` where no alias is configured.
    pub open spec fn link_step(&self, pid: i32) -> AttachStepView {
        match self.linking_to {
            Some(linking_to) => AttachStepView::Link(
                CommandView {
                    program: self.settings.ns_enter_bin@,
                    args: link_args(pid, self.bind_path@, linking_to@),
                },
            ),
            None => AttachStepView::Done,
        }
    }

    /// The first step for `pid`: a mount of the directory that holds
    /// `bind_path` onto itself where a mount is needed and the path has a
    /// parent, else the link step.
    pub open spec fn first_step(&self, pid: i32) -> AttachStepView {
        if self.using_mount && path_parent(self.bind_path@).is_some() {
            let dir = path_parent(self.bind_path@).unwrap();
            AttachStepView::Mount(mount_command(pid, dir, dir, self.settings))
        } else {
            self.link_step(pid)
        }
    }

    /// Whether `other` differs from `self` at most in `using_mount` and in
    /// what its coordinator handle remembers.
    pub open spec fn same_setup(&self, other: &ThreadMode) -> bool {
        &&& self.log_level == other.log_level
        &&& self.bind_path == other.bind_path
        &&& self.linking_to == other.linking_to
        &&& self.agent_to_probe_sender == other.agent_to_probe_sender
        &&& self.settings == other.settings
    }

    /// Builds the strategy with a fresh queue and hands back the queue's
    /// receiving half, which the host gives to the shared server.
    pub fn new(
        log_level: String,
        ctrl: Control,
        bind_path: String,
        linking_to: Option<String>,
        using_mount: bool,
        settings: Settings,
    ) -> (res: (ThreadMode, Receiver<(i32, String)>))
        ensures
            res.0.log_level == log_level,
            res.0.ctrl == ctrl,
            res.0.bind_path == bind_path,
            res.0.linking_to == linking_to,
            res.0.using_mount == using_mount,
            res.0.settings == settings,
            probe_queue_bound(res.0.agent_to_probe_sender) == Some(CHANNEL_CAPACITY),
    {
        let (sender, receiver) = bounded_probe_commands(CHANNEL_CAPACITY);
        (
            ThreadMode {
                ctrl,
                log_level,
                bind_path,
                linking_to,
                using_mount,
                agent_to_probe_sender: sender,
                settings,
            },
            receiver,
        )
    }

    /// Builds the run that links the alias to `bind_path` inside the
    /// namespaces of `pid`, where an alias is configured.
    pub fn link(&self, pid: i32) -> (step: AttachStep)
        ensures
            step@ == self.link_step(pid),
    {
        match &self.linking_to {
            Some(linking_to) => {
                let mut args: Vec<String> = Vec::new();
                args.push(String::from_str("-t"));
                args.push(decimal_string(pid));
                args.push(String::from_str("-m"));
                args.push(String::from_str("-i"));
                args.push(String::from_str("-n"));
                args.push(String::from_str("-p"));
                args.push(String::from_str("/bin/ln"));
                args.push(String::from_str("-sf"));
                args.push(self.bind_path.clone());
                args.push(linking_to.clone());
                proof {
                    assert(texts(args@) =~= link_args(pid, self.bind_path@, linking_to@));
                }
                AttachStep::Link(Command { program: self.settings.ns_enter_bin.clone(), args })
            },
            None => AttachStep::Done,
        }
    }

    /// Takes the report of the mount helper: a failed mount fails the
    /// attach, after a mount that succeeded the link step follows.
    pub fn after_mount(&self, pid: i32, outcome: RunOutcome) -> (res: Result<AttachStep, CommError>)
        ensures
            match outcome {
                RunOutcome::Exited { success, status, stdout, stderr } => if success {
                    res matches Ok(step) && step@ == self.link_step(pid)
                } else {
                    res matches Err(e) && e@ == (CommErrorView::MountScriptFailed {
                        status: status@,
                        stdout: stdout@,
                        stderr: stderr@,
                    })
                },
                RunOutcome::NotRun { reason } => res matches Err(e) && e@ == (
                CommErrorView::CannotMount { reason: reason@ }),
            },
    {
        match mounted(outcome) {
            Ok(()) => Ok(self.link(pid)),
            Err(e) => Err(e),
        }
    }

    /// Takes the report of the link helper: only a helper that could not be
    /// started fails the attach; how it exited is not judged.
    pub fn after_link(&self, outcome: RunOutcome) -> (res: Result<(), CommError>)
        ensures
            match outcome {
                RunOutcome::Exited { .. } => res is Ok,
                RunOutcome::NotRun { reason } => res matches Err(e) && e@ == (
                CommErrorView::LinkFailed { reason: reason@ }),
            },
    {
        match outcome {
            RunOutcome::Exited { .. } => Ok(()),
            RunOutcome::NotRun { reason } => Err(CommError::LinkFailed { reason }),
        }
    }

    /// Takes the result of a send on the shared queue. A queue without a
    /// receiver means that the shared server is gone: the coordinator is told
    /// to stop and the pair that could not be sent is reported.
    pub fn after_send(&mut self, sent: Result<(), (i32, String)>) -> (res: Result<(), CommError>)
        ensures
            old(self).same_setup(final(self)),
            final(self).using_mount == old(self).using_mount,
            match sent {
                Ok(_) => res is Ok && final(self).ctrl == old(self).ctrl,
                Err(back) => res matches Err(e) && e@ == (CommErrorView::SendMessageFailed {
                    pid: back.0,
                    message: back.1@,
                }) && e.is_fatal() && final(self).ctrl.stopped(),
            },
    {
        match sent {
            Ok(_) => Ok(()),
            Err(back) => {
                let _ = self.ctrl.stop();
                Err(CommError::SendMessageFailed { pid: back.0, message: back.1 })
            },
        }
    }
}

impl RASPComm for ThreadMode {
    /// What `/proc/1/ns/mnt` points at, or nothing when it could not be read.
    type Probe = Option<String>;

    type Started = AttachStep;

    type Stopped = ();

    open spec fn wf(&self) -> bool {
        true
    }

    open spec fn admits(&self, probe: &Option<String>) -> bool {
        true
    }

    /// Decides whether the process needs the mount and names the first step
    /// of the attach. A root namespace that could not be read counts as
    /// another namespace. Never fails.
    fn start_comm(&mut self, pid: i32, mnt_namespace: &String, probe: Option<String>) -> (res:
        Result<AttachStep, CommError>)
        ensures
            old(self).same_setup(final(self)),
            final(self).ctrl == old(self).ctrl,
            final(self).using_mount == needs_mount(
                match probe {
                    Some(root) => Some(root@),
                    None => None,
                },
                mnt_namespace@,
            ),
            res matches Ok(step) && step@ == final(self).first_step(pid),
    {
        match &probe {
            Some(root_mnt) => {
                self.using_mount = !check_need_mount(root_mnt, mnt_namespace);
            },
            None => {
                self.using_mount = true;
            },
        }
        if self.using_mount {
            if let Some(bind_dir) = parent_dir(self.bind_path.as_str()) {
                return Ok(
                    AttachStep::Mount(
                        mount(pid, bind_dir.as_str(), bind_dir.as_str(), &self.settings),
                    ),
                );
            }
        }
        Ok(self.link(pid))
    }

    /// Nothing to release: the shared server outlives every probe.
    fn stop_comm(&mut self, pid: i32, mnt_namespace: &String) -> (res: Result<(), CommError>)
        ensures
            res is Ok,
            *final(self) == *old(self),
    {
        Ok(())
    }

    /// Puts `(pid, message)` on the shared queue, waiting while it is full.
    /// Fails only when the queue has lost its receiver, and then tells the
    /// coordinator to stop.
    fn send_message_to_probe(&mut self, pid: i32, mnt_namespace: &String, message: &String) -> (res:
        Result<(), CommError>)
        ensures
            old(self).same_setup(final(self)),
            final(self).using_mount == old(self).using_mount,
            res is Ok ==> final(self).ctrl == old(self).ctrl,
            res matches Err(e) ==> e@ == (CommErrorView::SendMessageFailed {
                pid,
                message: message@,
            }) && final(self).ctrl.stopped(),
    {
        let sent = send_message(&self.agent_to_probe_sender, (pid, message.clone()));
        self.after_send(sent)
    }
}

/// Whether a process is mounted for depends only on the comparison of the
/// two namespaces: a process in the root namespace gets no mount step; a
/// process in another namespace, or one whose namespace could not be
/// compared, gets one mount step, of the directory that holds the bind path
/// onto itself, and none after it. The bind path must have a parent for the
/// second part.
pub proof fn mount_decision(
    mode: ThreadMode,
    pid: i32,
    root_mnt: Option<Seq<char>>,
    pid_mntns: Seq<char>,
)
    requires
        mode.using_mount == needs_mount(root_mnt, pid_mntns),
    ensures
        root_mnt == Some(pid_mntns) ==> !(mode.first_step(pid) is Mount),
        root_mnt != Some(pid_mntns) && path_parent(mode.bind_path@).is_some() ==> mode.first_step(
            pid,
        ) == AttachStepView::Mount(
            mount_command(
                pid,
                path_parent(mode.bind_path@).unwrap(),
                path_parent(mode.bind_path@).unwrap(),
                mode.settings,
            ),
        ),
        !(mode.link_step(pid) is Mount),
{
}

} // verus!
