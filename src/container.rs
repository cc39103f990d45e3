//! The container backend: runtime command lines and the interpretation of
//! what the runtime answers.
use vstd::prelude::*;
use vstd::utf8::{decode_utf8, valid_utf8};

use crate::error::{Error, ErrorKind};
use crate::text::{strip_last_newline, without_newline};
use crate::{texts, CommandLine, Key, Status};

verus! {

/// Relies on std::str::from_utf8: the bytes as text, exactly when they are
/// valid UTF-8.
#[verifier::external_body]
fn utf8_text(bytes: &[u8]) -> (r: Option<&str>)
    ensures
        r is Some <==> valid_utf8(bytes@),
        r matches Some(s) ==> s@ == decode_utf8(bytes@),
{
    std::str::from_utf8(bytes).ok()
}

/// What a finished runtime command gives: its trimmed standard output on
/// success, else its standard error as a harness error. Output that is not
/// UTF-8 is an I/O error.
pub fn output_to_result(success: bool, stdout: &[u8], stderr: &[u8]) -> (r: Result<String, Error>)
    ensures
        success && valid_utf8(stdout@) ==> (r matches Ok(s) && s@ == without_newline(
            decode_utf8(stdout@),
        )),
        !success && valid_utf8(stderr@) ==> (r matches Err(e) && e.kind == ErrorKind::HarnessError
            && e.message@ == decode_utf8(stderr@)),
        (success && !valid_utf8(stdout@)) || (!success && !valid_utf8(stderr@)) ==> (r matches Err(
            e,
        ) && e.kind == ErrorKind::IO),
{
    if success {
        match utf8_text(stdout) {
            Some(text) => Ok(strip_last_newline(text).to_string()),
            None => Err(Error::new(ErrorKind::IO, "Output is not valid UTF-8")),
        }
    } else {
        match utf8_text(stderr) {
            Some(text) => Err(Error::new(ErrorKind::HarnessError, text)),
            None => Err(Error::new(ErrorKind::IO, "Error output is not valid UTF-8")),
        }
    }
}

/// A container system config
#[derive(Clone, Debug)]
pub struct ContainerSystemConfig {
    /// Container runtime
    pub tool: String,
    /// Container image
    pub image: String,
}

impl ContainerSystemConfig {
    /// The runtime command that creates the container: `create -t <image>`.
    pub fn create_command(&self) -> (r: CommandLine)
        ensures
            r.program@ == self.tool@,
            texts(r.args@) == seq!["create"@, "-t"@, self.image@],
    {
        let args = vec!["create".to_string(), "-t".to_string(), self.image.clone()];
        assert(texts(args@) =~= seq!["create"@, "-t"@, self.image@]);
        CommandLine { program: self.tool.clone(), args }
    }

    /// The container that creation answered with `id`.
    pub fn system(&self, id: String) -> (r: ContainerSystem)
        ensures
            r.tool@ == self.tool@,
            r.id == id,
    {
        ContainerSystem { tool: self.tool.clone(), id }
    }
}

/// An operation of the runtime on one container
#[derive(Copy, Clone, Debug, PartialEq, Eq, Structural)]
pub enum ContainerOp {
    Start,
    Pause,
    Unpause,
    Stop,
    Inspect,
    Remove,
    Shell,
}

/// The runtime's arguments for operation `op` on the container `id`.
pub open spec fn op_args(op: ContainerOp, id: Seq<char>) -> Seq<Seq<char>> {
    match op {
        ContainerOp::Start => seq!["start"@, id],
        ContainerOp::Pause => seq!["pause"@, id],
        ContainerOp::Unpause => seq!["unpause"@, id],
        ContainerOp::Stop => seq!["stop"@, id],
        ContainerOp::Inspect => seq!["inspect"@, id],
        ContainerOp::Remove => seq!["rm"@, "-f"@, id],
        ContainerOp::Shell => seq!["exec"@, "-it"@, id, "sh"@],
    }
}

/// The state of a container, as the runtime's inspection reports it
#[derive(Copy, Clone, Debug, PartialEq, Eq, Structural)]
pub struct ContainerState {
    pub running: bool,
    pub paused: bool,
}

/// The status that an inspection reports: that of its first entry; none
/// when there is no entry.
pub open spec fn inspected_status(states: Seq<ContainerState>) -> Option<Status> {
    if states.len() == 0 {
        None
    } else if states[0].running {
        Some(Status::Running)
    } else if states[0].paused {
        Some(Status::Paused)
    } else {
        Some(Status::Shutdown)
    }
}

/// A created container, named by its runtime and its identifier
#[derive(Clone, Debug)]
pub struct ContainerSystem {
    pub tool: String,
    pub id: String,
}

impl ContainerSystem {
    /// The runtime command for operation `op` on this container.
    pub fn command(&self, op: ContainerOp) -> (r: CommandLine)
        ensures
            r.program@ == self.tool@,
            texts(r.args@) == op_args(op, self.id@),
    {
        let id = self.id.clone();
        let args = match op {
            ContainerOp::Start => vec!["start".to_string(), id],
            ContainerOp::Pause => vec!["pause".to_string(), id],
            ContainerOp::Unpause => vec!["unpause".to_string(), id],
            ContainerOp::Stop => vec!["stop".to_string(), id],
            ContainerOp::Inspect => vec!["inspect".to_string(), id],
            ContainerOp::Remove => vec!["rm".to_string(), "-f".to_string(), id],
            ContainerOp::Shell => vec![
                "exec".to_string(),
                "-it".to_string(),
                id,
                "sh".to_string(),
            ],
        };
        assert(texts(args@) =~= op_args(op, self.id@));
        CommandLine { program: self.tool.clone(), args }
    }

    /// The status that an inspection reports; an inspection with no entry
    /// means that the container does not exist, a harness error.
    pub fn status_from_inspect(states: &[ContainerState]) -> (r: Result<Status, Error>)
        ensures
            inspected_status(states@) matches Some(st) ==> r == Ok::<Status, Error>(st),
            inspected_status(states@) is None ==> (r matches Err(e) && e.kind
                == ErrorKind::HarnessError && e.message@ == "Container doesn't exist"@),
    {
        if states.len() == 0 {
            return Err(Error::new(ErrorKind::HarnessError, "Container doesn't exist"));
        }
        let state = states[0];
        if state.running {
            Ok(Status::Running)
        } else if state.paused {
            Ok(Status::Paused)
        } else {
            Ok(Status::Shutdown)
        }
    }

    /// Keystrokes cannot be injected into a container: always a harness
    /// error, with nothing asked of the runtime.
    pub fn send_key(&self, key: Key) -> (r: Result<(), Error>)
        ensures
            r matches Err(e) && e.kind == ErrorKind::HarnessError,
    {
        Err(Error::new(ErrorKind::HarnessError, "Sending a keystroke not supported"))
    }
}

/// Whether disposal removes the container, given how its shutdown went:
/// only a container that was shut down is removed.
pub open spec fn disposal_removes(shutdown: Result<(), Error>) -> bool {
    shutdown is Ok
}

/// Decides, on disposal, whether to remove the container after its shutdown.
pub fn remove_on_drop(shutdown: &Result<(), Error>) -> (r: bool)
    ensures
        r == disposal_removes(*shutdown),
{
    shutdown.is_ok()
}

/// Disposing of a container that is seen running attempts its shutdown,
/// and a container whose shutdown failed is left in place, never removed.
pub proof fn lemma_failed_shutdown_keeps_container(
    running: Result<bool, Error>,
    shutdown: Result<(), Error>,
)
    ensures
        running matches Ok(true) ==> crate::disposal_shuts_down(running),
        shutdown is Err ==> !disposal_removes(shutdown),
{
}

} // verus!
