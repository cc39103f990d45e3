//! Start, monitor and tear down a harnessed system (a virtual machine or a
//! container) through one lifecycle interface.
use vstd::prelude::*;

mod error;
pub mod container;
pub mod qemu;
pub mod text;

pub use container::{
    output_to_result, ContainerOp, ContainerState, ContainerSystem, ContainerSystemConfig,
};
pub use error::Error;
pub use error::ErrorKind;
pub use qemu::args::{Property, PropertyList, PropertyValue, ValuedProperty};
pub use qemu::models::{
    Backend, BlockDev, Boot, CharDev, Device, Discard, Machine, NetDev, OnOff, Smp,
};
pub use qemu::qmp::{
    create_event, KeyCommand, KeyValue, KeyValueKind, QemuVersion, QmpAction, QmpCommand,
    QmpEmptyReturn, QmpPhase, QmpResponse, QmpReturn, QmpSession, QmpStatusInfo, QmpTimestamp,
};
pub use qemu::{qemu_system_bin, QemuSystemConfig};
pub use text::strip_last_newline;

verus! {

/// System keyboard key
#[derive(Copy, Clone, Debug, PartialEq, Eq, Structural)]
pub enum Key {
    Enter,
}

/// System status
#[derive(Copy, Clone, Debug, PartialEq, Eq, Structural)]
pub enum Status {
    Running,
    Paused,
    Suspended,
    Shutdown,
}

/// Type of event
#[derive(Copy, Clone, Debug, PartialEq, Eq, Structural)]
pub enum EventKind {
    Shutdown,
    Resume,
    Pause,
    Suspend,
}

/// A machine event
#[derive(Copy, Clone, Debug, PartialEq, Eq, Structural)]
pub struct Event {
    /// Type of event
    pub kind: EventKind,
    /// Time the event occurred, in microseconds since the Unix epoch
    pub timestamp: u128,
}

/// A listener for machine events
pub trait EventSubscriber {
    /// Whether the subscriber can take `event` in its current state
    spec fn accepts(&self, event: Event) -> bool;

    /// Action to be performed on event
    fn on_event(&mut self, event: &Event)
        requires
            old(self).accepts(*event),
    ;
}

impl<F: FnMut(&Event)> EventSubscriber for F {
    open spec fn accepts(&self, event: Event) -> bool {
        call_requires(*self, (&event,))
    }

    fn on_event(&mut self, event: &Event) {
        (self)(event)
    }
}

/// An executable and its arguments
#[derive(Clone, Debug)]
pub struct CommandLine {
    pub program: String,
    pub args: Vec<String>,
}

/// The texts of a list of strings.
pub open spec fn texts(v: Seq<String>) -> Seq<Seq<char>> {
    v.map_values(|s: String| s@)
}

/// A view onto a harness's data channel that can inject keystrokes
pub trait SystemTerminal {
    /// Send key to the system
    fn send_key(&mut self, key: Key) -> Result<(), Error>;
}

/// A harnessed system
pub trait SystemHarness {
    type Terminal: SystemTerminal;

    /// A new handle onto the system's console
    fn terminal(&self) -> Result<Self::Terminal, Error>;

    /// Pause system
    fn pause(&mut self) -> Result<(), Error>;

    /// Resume system
    fn resume(&mut self) -> Result<(), Error>;

    /// Shutdown system
    fn shutdown(&mut self) -> Result<(), Error>;

    /// Get system status
    fn status(&mut self) -> Result<Status, Error>;

    /// Check if harness is running
    fn running(&mut self) -> Result<bool, Error>;
}

/// An event publisher
pub trait EventPublisher {
    /// Subscribe event listener
    fn subscribe<S: EventSubscriber + 'static>(&mut self, subscriber: S) -> Result<(), Error>;
}

/// Whether disposal of a harness attempts a shutdown, given what asking
/// whether the system runs gave: only a system seen running is shut down.
pub open spec fn disposal_shuts_down(running: Result<bool, Error>) -> bool {
    running matches Ok(true)
}

/// Decides, on disposal, whether to shut the system down.
pub fn shutdown_on_drop(running: &Result<bool, Error>) -> (r: bool)
    ensures
        r == disposal_shuts_down(*running),
{
    match running {
        Ok(true) => true,
        _ => false,
    }
}

} // verus!
