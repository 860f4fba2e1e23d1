//! What the core asks of its host and what the host reports back: programs
//! to run, how a run ended, and where the helper programs are.
use vstd::prelude::*;
use vstd::string::*;

verus! {

/// The strings of a list, each by its view.
pub open spec fn texts(v: Seq<String>) -> Seq<Seq<char>> {
    v.map_values(|s: String| s@)
}

/// Where the helper programs are. The host resolves the paths once and hands
/// them to each strategy when it is built.
#[derive(Debug, PartialEq, Eq)]
pub struct Settings {
    /// The program that enters the namespaces of another process.
    pub ns_enter_bin: String,
    /// The program that bind-mounts a directory into another namespace.
    pub mount_script_bin: String,
    /// The server that is spawned for each namespace.
    pub server_bin: String,
    /// The attach daemon's path without the name of its variant.
    pub golang_ebpf_bin: String,
}

impl Settings {
    /// The path of the attach daemon of one variant: the daemon's path, an
    /// underscore and the variant.
    pub fn golang_ebpf(&self, variant: &str) -> (path: String)
        ensures
            path@ == self.golang_ebpf_bin@ + "_"@ + variant@,
    {
        self.golang_ebpf_bin.clone().concat("_").concat(variant)
    }
}

impl Clone for Settings {
    fn clone(&self) -> (c: Settings)
        ensures
            c == *self,
    {
        Settings {
            ns_enter_bin: self.ns_enter_bin.clone(),
            mount_script_bin: self.mount_script_bin.clone(),
            server_bin: self.server_bin.clone(),
            golang_ebpf_bin: self.golang_ebpf_bin.clone(),
        }
    }
}

/// A program for the host to run, with its arguments in order.
#[derive(Debug, PartialEq, Eq)]
pub struct Command {
    pub program: String,
    pub args: Vec<String>,
}

/// The mathematical value of a `Command`.
pub ghost struct CommandView {
    pub program: Seq<char>,
    pub args: Seq<Seq<char>>,
}

impl View for Command {
    type V = CommandView;

    open spec fn view(&self) -> CommandView {
        CommandView { program: self.program@, args: texts(self.args@) }
    }
}

/// How the run of a `Command` ended.
#[derive(Debug, PartialEq, Eq)]
pub enum RunOutcome {
    /// The program ran; `success` says whether it exited with code 0.
    Exited { success: bool, status: String, stdout: String, stderr: String },
    /// The program could not be started.
    NotRun { reason: String },
}

/// What `Path::parent` gives for a path written as text.
pub uninterp spec fn path_parent(path: Seq<char>) -> Option<Seq<char>>;

/// Calls `Path::parent` on `path` and hands the parent back as text: the
/// path without its last component, or nothing where the path ends in a root
/// or is empty. The contract only names the result.
#[verifier::external_body]
pub(crate) fn parent_dir(path: &str) -> (parent: Option<String>)
    ensures
        parent.is_some() == path_parent(path@).is_some(),
        parent matches Some(dir) ==> path_parent(path@) == Some(dir@),
{
    std::path::Path::new(path).parent().and_then(|dir| dir.to_str()).map(|s| s.to_string())
}

} // verus!
