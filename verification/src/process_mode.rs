//! The per-namespace strategy: one server process and one queue for each
//! mount namespace that a probe lives in.
use crate::channel::bounded_commands;
use crate::channel::command_queue_bound;
use crate::channel::same_queue;
use crate::channel::send_message;
use crate::channel::share_receiver;
use crate::channel::CHANNEL_CAPACITY;
use crate::comm::RASPComm;
use crate::control::Control;
use crate::error::CommError;
use crate::error::CommErrorView;
use crate::host::Settings;
use crate::text_map::TextMap;
use crossbeam::channel::Receiver;
use crossbeam::channel::Sender;
use vstd::prelude::*;

verus! {

/// The server process that was spawned for one namespace.
#[derive(Debug)]
pub struct ServerProcess {
    /// The process whose probe the server talks to.
    pub pid: i32,
    /// The server process itself.
    pub child_id: u32,
    /// The settings that were applied to this server, each under its name.
    pub patch_field: TextMap<String>,
}

impl ServerProcess {
    /// The invariant: no setting is named twice.
    pub open spec fn wf(&self) -> bool {
        self.patch_field.wf()
    }

    /// The handle of the server `child_id` that was spawned for `pid` with
    /// the settings `patch_field`.
    pub fn new(pid: i32, child_id: u32, patch_field: TextMap<String>) -> (server: ServerProcess)
        requires
            patch_field.wf(),
        ensures
            server.wf(),
            server.pid == pid,
            server.child_id == child_id,
            server.patch_field == patch_field,
    {
        ServerProcess { pid, child_id, patch_field }
    }
}

/// What the host needs to spawn the server for one process.
pub struct SpawnRequest {
    /// The server program.
    pub program: String,
    /// The process whose probe the server will talk to.
    pub pid: i32,
    pub log_level: String,
    /// Where the server takes its commands from.
    pub receiver: Receiver<String>,
}

/// What the host reports after it tried to spawn a server.
pub struct Launch {
    /// The queue that was made for the server, as `prepare` gave it.
    pub channel: (Sender<String>, Receiver<String>),
    /// The server, or why it could not be spawned.
    pub spawned: Result<ServerProcess, String>,
}

/// The two maps after a server was started for `mnt_namespace`, and the
/// server that had the namespace before.
pub open spec fn started(
    servers: Map<Seq<char>, ServerProcess>,
    pairs: Map<Seq<char>, (Sender<String>, Receiver<String>)>,
    mnt_namespace: Seq<char>,
    server: ServerProcess,
    channel: (Sender<String>, Receiver<String>),
) -> (
    Map<Seq<char>, ServerProcess>,
    Map<Seq<char>, (Sender<String>, Receiver<String>)>,
    Option<ServerProcess>,
) {
    (
        servers.insert(mnt_namespace, server),
        pairs.insert(mnt_namespace, channel),
        if servers.contains_key(mnt_namespace) {
            Some(servers[mnt_namespace])
        } else {
            None
        },
    )
}

/// The per-namespace strategy.
pub struct ProcessMode {
    pub ctrl: Control,
    pub log_level: String,
    /// The server of each namespace.
    pub mnt_namesapce_server_map: TextMap<ServerProcess>,
    /// The queue of each namespace.
    pub mnt_namespace_comm_pair: TextMap<(Sender<String>, Receiver<String>)>,
    pub settings: Settings,
}

impl ProcessMode {
    /// The strategy with no server and no queue.
    pub fn new(log_level: String, ctrl: Control, settings: Settings) -> (mode: ProcessMode)
        ensures
            mode.wf(),
            mode.log_level == log_level,
            mode.ctrl == ctrl,
            mode.settings == settings,
            mode.mnt_namesapce_server_map@ == Map::<Seq<char>, ServerProcess>::empty(),
            mode.mnt_namespace_comm_pair@ == Map::<
                Seq<char>,
                (Sender<String>, Receiver<String>),
            >::empty(),
    {
        ProcessMode {
            ctrl,
            log_level,
            mnt_namesapce_server_map: TextMap::new(),
            mnt_namespace_comm_pair: TextMap::new(),
            settings,
        }
    }

    /// Whether `other` has the coordinator handle, the log level and the
    /// settings of `self`.
    pub open spec fn same_setup(&self, other: &ProcessMode) -> bool {
        &&& self.ctrl == other.ctrl
        &&& self.log_level == other.log_level
        &&& self.settings == other.settings
    }

    /// Makes the queue for a new server and says what to spawn: the server
    /// program, for `pid`, reading its commands from the queue. The queue is
    /// fresh and holds `CHANNEL_CAPACITY` commands; the request's receiver
    /// takes from the same queue as the receiver of the pair.
    pub fn prepare(&self, pid: i32) -> (res: (SpawnRequest, (Sender<String>, Receiver<String>)))
        ensures
            res.0.program == self.settings.server_bin,
            res.0.pid == pid,
            res.0.log_level == self.log_level,
            command_queue_bound(res.1.0) == Some(CHANNEL_CAPACITY),
            same_queue(res.1.1, res.0.receiver),
    {
        let (sender, receiver) = bounded_commands(CHANNEL_CAPACITY);
        let request = SpawnRequest {
            program: self.settings.server_bin.clone(),
            pid,
            log_level: self.log_level.clone(),
            receiver: share_receiver(&receiver),
        };
        (request, (sender, receiver))
    }

    /// Takes the result of a send on the queue of one namespace: a queue
    /// without a receiver is reported with the message that came back.
    pub fn after_send(sent: Result<(), String>) -> (res: Result<(), CommError>)
        ensures
            match sent {
                Ok(_) => res is Ok,
                Err(back) => res matches Err(e) && e@ == (CommErrorView::SendToProbeFailed {
                    message: back@,
                }),
            },
    {
        match sent {
            Ok(_) => Ok(()),
            Err(back) => Err(CommError::SendToProbeFailed { message: back }),
        }
    }
}

impl RASPComm for ProcessMode {
    type Probe = Launch;

    /// The server that the namespace had before, which the host has to kill.
    type Started = Option<ServerProcess>;

    /// The server that was taken out, which the host has to kill.
    type Stopped = ServerProcess;

    /// Both maps are in order, every server's settings are, and every queue
    /// holds `CHANNEL_CAPACITY` commands.
    open spec fn wf(&self) -> bool {
        &&& self.mnt_namesapce_server_map.wf()
        &&& self.mnt_namespace_comm_pair.wf()
        &&& forall|ns: Seq<char>| #[trigger]
            self.mnt_namesapce_server_map@.contains_key(ns)
                ==> self.mnt_namesapce_server_map@[ns].wf()
        &&& forall|ns: Seq<char>| #[trigger]
            self.mnt_namespace_comm_pair@.contains_key(ns) ==> command_queue_bound(
                self.mnt_namespace_comm_pair@[ns].0,
            ) == Some(CHANNEL_CAPACITY)
    }

    /// The queue is one that `prepare` made, and the settings of the server
    /// are in order.
    open spec fn admits(&self, probe: &Launch) -> bool {
        &&& command_queue_bound(probe.channel.0) == Some(CHANNEL_CAPACITY)
        &&& probe.spawned matches Ok(server) ==> server.wf()
    }

    /// Records the server that was spawned for `mnt_namespace` and its
    /// queue, in place of what the namespace had. A server that could not be
    /// spawned is reported and nothing is recorded.
    fn start_comm(&mut self, pid: i32, mnt_namespace: &String, probe: Launch) -> (res: Result<
        Option<ServerProcess>,
        CommError,
    >)
        ensures
            old(self).same_setup(final(self)),
            match probe.spawned {
                Ok(server) => res matches Ok(replaced) && (
                    final(self).mnt_namesapce_server_map@,
                    final(self).mnt_namespace_comm_pair@,
                    replaced,
                ) == started(
                    old(self).mnt_namesapce_server_map@,
                    old(self).mnt_namespace_comm_pair@,
                    mnt_namespace@,
                    server,
                    probe.channel,
                ),
                Err(reason) => res matches Err(e) && e@ == (CommErrorView::SpawnFailed {
                    reason: reason@,
                }) && final(self).mnt_namesapce_server_map@ == old(self).mnt_namesapce_server_map@
                    && final(self).mnt_namespace_comm_pair@ == old(self).mnt_namespace_comm_pair@,
            },
    {
        let Launch { channel, spawned } = probe;
        match spawned {
            Ok(server_process) => {
                let replaced = self.mnt_namesapce_server_map.insert(
                    mnt_namespace.clone(),
                    server_process,
                );
                self.mnt_namespace_comm_pair.insert(mnt_namespace.clone(), channel);
                Ok(replaced)
            },
            Err(reason) => Err(CommError::SpawnFailed { reason }),
        }
    }

    /// Takes the server of `mnt_namespace` out of the map and hands it back
    /// for the host to kill. A namespace without a server is an error that
    /// changes nothing. The queue of the namespace stays.
    fn stop_comm(&mut self, pid: i32, mnt_namespace: &String) -> (res: Result<
        ServerProcess,
        CommError,
    >)
        ensures
            old(self).same_setup(final(self)),
            final(self).mnt_namespace_comm_pair@ == old(self).mnt_namespace_comm_pair@,
            final(self).mnt_namesapce_server_map@ == old(self).mnt_namesapce_server_map@.remove(
                mnt_namespace@,
            ),
            match res {
                Ok(runner) => old(self).mnt_namesapce_server_map@.contains_key(mnt_namespace@)
                    && runner == old(self).mnt_namesapce_server_map@[mnt_namespace@]
                    && runner.wf(),
                Err(e) => !old(self).mnt_namesapce_server_map@.contains_key(mnt_namespace@)
                    && e@ == (CommErrorView::ServerNotStarted { mnt_namespace: mnt_namespace@ })
                    && final(self).mnt_namesapce_server_map@ == old(
                    self,
                ).mnt_namesapce_server_map@,
            },
    {
        match self.mnt_namesapce_server_map.remove(mnt_namespace) {
            Some(runner) => Ok(runner),
            None => {
                proof {
                    assert(old(self).mnt_namesapce_server_map@.remove(mnt_namespace@) =~= old(
                        self,
                    ).mnt_namesapce_server_map@);
                }
                Err(CommError::ServerNotStarted { mnt_namespace: mnt_namespace.clone() })
            },
        }
    }

    /// Puts `message` on the queue of `mnt_namespace`, waiting while it is
    /// full. A namespace without a queue is passed over in silence; a queue
    /// without a receiver is reported, and the coordinator is left alone.
    fn send_message_to_probe(&mut self, pid: i32, mnt_namespace: &String, message: &String) -> (res:
        Result<(), CommError>)
        ensures
            *final(self) == *old(self),
            !old(self).mnt_namespace_comm_pair@.contains_key(mnt_namespace@) ==> res is Ok,
            res matches Err(e) ==> e@ == (CommErrorView::SendToProbeFailed { message: message@ }),
    {
        match self.mnt_namespace_comm_pair.get(mnt_namespace) {
            Some(pair) => {
                let sent = send_message(&pair.0, message.clone());
                Self::after_send(sent)
            },
            None => Ok(()),
        }
    }
}

/// Starting a server for a namespace that has one puts the new server in its
/// place and hands the old one back, so that it can be killed; no other
/// namespace is touched. Stopping a namespace that was never started changes
/// nothing.
pub proof fn restart_replaces(
    servers: Map<Seq<char>, ServerProcess>,
    pairs: Map<Seq<char>, (Sender<String>, Receiver<String>)>,
    mnt_namespace: Seq<char>,
    first: ServerProcess,
    first_channel: (Sender<String>, Receiver<String>),
    second: ServerProcess,
    second_channel: (Sender<String>, Receiver<String>),
)
    ensures
        ({
            let once = started(servers, pairs, mnt_namespace, first, first_channel);
            let twice = started(once.0, once.1, mnt_namespace, second, second_channel);
            &&& twice.2 == Some(first)
            &&& twice.0[mnt_namespace] == second
            &&& twice.1[mnt_namespace] == second_channel
            &&& twice.0.dom() == once.0.dom()
            &&& twice.1.dom() == once.1.dom()
            &&& forall|other: Seq<char>|
                other != mnt_namespace && once.0.contains_key(other) ==> twice.0[other]
                    == once.0[other]
        }),
        !servers.contains_key(mnt_namespace) ==> servers.remove(mnt_namespace) == servers,
{
    let once = started(servers, pairs, mnt_namespace, first, first_channel);
    let twice = started(once.0, once.1, mnt_namespace, second, second_channel);
    assert(twice.0.dom() =~= once.0.dom());
    assert(twice.1.dom() =~= once.1.dom());
    if !servers.contains_key(mnt_namespace) {
        assert(servers.remove(mnt_namespace) =~= servers);
    }
}

} // verus!
