//! The VM backend: the monitor's command line.
use vstd::prelude::*;

use crate::qemu::args::Arg;
use crate::qemu::models::{Backend, BlockDev, Boot, CharDev, Device, Machine, NetDev, Smp};
use crate::{texts, CommandLine};

pub mod args;
pub mod models;
pub mod qmp;

verus! {

/// Path of the control channel's socket
pub const QMP_SOCKET: &'static str = "qmp.sock";

/// Path of the serial console's socket
pub const SERIAL_SOCKET: &'static str = "serial.sock";

/// A configuration for running QEMU
#[derive(Clone, Debug)]
pub struct QemuSystemConfig {
    pub arch: String,
    pub boot: Option<Boot>,
    pub cpu: Option<String>,
    pub machine: Option<Machine>,
    pub smp: Option<Smp>,
    pub accel: Option<String>,
    pub bios: Option<String>,
    pub memory: Option<usize>,
    pub cdrom: Option<String>,
    pub hda: Option<String>,
    pub hdb: Option<String>,
    pub device: Option<Vec<Device>>,
    pub chardev: Option<Vec<Backend<CharDev>>>,
    pub netdev: Option<Vec<Backend<NetDev>>>,
    pub blockdev: Option<Vec<BlockDev>>,
    /// Extra QEMU args
    pub extra_args: Option<Vec<String>>,
}

/// `name` and the value's argument, if there is a value.
pub open spec fn option_args<T: Arg>(name: Seq<char>, value: Option<T>) -> Seq<Seq<char>> {
    match value {
        Some(v) => seq![name, v.spec_arg()],
        None => Seq::empty(),
    }
}

/// `name` and the argument, for each item in order.
pub open spec fn each_option_args<T: Arg>(name: Seq<char>, items: Seq<T>) -> Seq<Seq<char>>
    decreases items.len(),
{
    if items.len() == 0 {
        Seq::empty()
    } else {
        each_option_args(name, items.drop_last()) + seq![name, items.last().spec_arg()]
    }
}

/// `name` and the argument, for each item of the list, if there is one.
pub open spec fn list_option_args<T: Arg>(name: Seq<char>, value: Option<Vec<T>>) -> Seq<
    Seq<char>,
> {
    match value {
        Some(items) => each_option_args(name, items@),
        None => Seq::empty(),
    }
}

/// Appends `name` and the value's argument, if there is a value.
fn push_option<T: Arg>(args: &mut Vec<String>, name: &str, value: &Option<T>)
    ensures
        texts(final(args)@) == texts(old(args)@) + option_args(name@, *value),
{
    match value {
        Some(v) => {
            args.push(name.to_string());
            args.push(v.to_arg());
        },
        None => {},
    }
    assert(texts(final(args)@) =~= texts(old(args)@) + option_args(name@, *value));
}

/// Appends `name` and the argument, for each item of the list.
fn push_options<T: Arg>(args: &mut Vec<String>, name: &str, value: &Option<Vec<T>>)
    ensures
        texts(final(args)@) == texts(old(args)@) + list_option_args(name@, *value),
{
    match value {
        Some(items) => {
            let mut i: usize = 0;
            while i < items.len()
                invariant
                    i <= items@.len(),
                    texts(args@) == texts(old(args)@) + each_option_args(
                        name@,
                        items@.subrange(0, i as int),
                    ),
                decreases items@.len() - i,
            {
                let ghost next = items@.subrange(0, i + 1);
                let ghost before = texts(args@);
                assert(next.drop_last() =~= items@.subrange(0, i as int));
                assert(next.last() == items@[i as int]);
                args.push(name.to_string());
                let arg = items[i].to_arg();
                args.push(arg);
                assert(texts(args@) =~= before + seq![name@, arg@]);
                i += 1;
                assert(texts(args@) =~= texts(old(args)@) + each_option_args(name@, next));
            }
            assert(items@.subrange(0, items@.len() as int) =~= items@);
        },
        None => {
            assert(texts(args@) =~= texts(old(args)@) + list_option_args(name@, *value));
        },
    }
}

/// The executable for the configured architecture.
pub fn qemu_system_bin(config: &QemuSystemConfig) -> (r: String)
    ensures
        r@ == "qemu-system-"@ + config.arch@,
{
    let mut r = "qemu-system-".to_string();
    r.append(config.arch.as_str());
    r
}

impl QemuSystemConfig {
    /// The arguments compiled from the structured options, in field order.
    pub open spec fn spec_args(&self) -> Seq<Seq<char>> {
        option_args("-boot"@, self.boot) + option_args("-cpu"@, self.cpu) + option_args(
            "-machine"@,
            self.machine,
        ) + option_args("-smp"@, self.smp) + option_args("-accel"@, self.accel) + option_args(
            "-bios"@,
            self.bios,
        ) + option_args("-m"@, self.memory) + option_args("-cdrom"@, self.cdrom) + option_args(
            "-hda"@,
            self.hda,
        ) + option_args("-hdb"@, self.hdb) + list_option_args("-device"@, self.device)
            + list_option_args("-chardev"@, self.chardev) + list_option_args(
            "-netdev"@,
            self.netdev,
        ) + list_option_args("-blockdev"@, self.blockdev)
    }

    /// The fixed arguments of a harnessed system: no graphics, and the
    /// control and serial channels on Unix sockets that do not wait for a
    /// client.
    pub open spec fn harness_args() -> Seq<Seq<char>> {
        seq![
            "-nographic"@,
            "-qmp"@,
            "unix:qmp.sock,server=on,wait=off"@,
            "-serial"@,
            "unix:serial.sock,server=on,wait=off"@,
        ]
    }

    /// The extra arguments, if any.
    pub open spec fn spec_extra_args(&self) -> Seq<Seq<char>> {
        match self.extra_args {
            Some(extra) => texts(extra@),
            None => Seq::empty(),
        }
    }

    /// The command line compiled from the structured options.
    pub fn command(&self) -> (r: CommandLine)
        ensures
            r.program@ == "qemu-system-"@ + self.arch@,
            texts(r.args@) == self.spec_args(),
    {
        let mut args: Vec<String> = Vec::new();
        assert(texts(args@) =~= Seq::<Seq<char>>::empty());
        push_option(&mut args, "-boot", &self.boot);
        push_option(&mut args, "-cpu", &self.cpu);
        push_option(&mut args, "-machine", &self.machine);
        push_option(&mut args, "-smp", &self.smp);
        push_option(&mut args, "-accel", &self.accel);
        push_option(&mut args, "-bios", &self.bios);
        push_option(&mut args, "-m", &self.memory);
        push_option(&mut args, "-cdrom", &self.cdrom);
        push_option(&mut args, "-hda", &self.hda);
        push_option(&mut args, "-hdb", &self.hdb);
        push_options(&mut args, "-device", &self.device);
        push_options(&mut args, "-chardev", &self.chardev);
        push_options(&mut args, "-netdev", &self.netdev);
        push_options(&mut args, "-blockdev", &self.blockdev);
        assert(texts(args@) =~= self.spec_args());
        CommandLine { program: qemu_system_bin(self), args }
    }

    /// The command line that starts the harnessed system: the compiled
    /// options, the fixed harness arguments, then the extra arguments.
    pub fn launch_command(&self) -> (r: CommandLine)
        ensures
            r.program@ == "qemu-system-"@ + self.arch@,
            texts(r.args@) == self.spec_args() + Self::harness_args() + self.spec_extra_args(),
    {
        let mut command = self.command();
        let ghost compiled = texts(command.args@);
        command.args.push("-nographic".to_string());
        command.args.push("-qmp".to_string());
        command.args.push("unix:qmp.sock,server=on,wait=off".to_string());
        command.args.push("-serial".to_string());
        command.args.push("unix:serial.sock,server=on,wait=off".to_string());
        assert(texts(command.args@) =~= compiled + Self::harness_args());
        match &self.extra_args {
            Some(extra) => {
                let ghost fixed = texts(command.args@);
                let mut i: usize = 0;
                while i < extra.len()
                    invariant
                        i <= extra@.len(),
                        texts(command.args@) == fixed + texts(extra@.subrange(0, i as int)),
                        command.program@ == "qemu-system-"@ + self.arch@,
                    decreases extra@.len() - i,
                {
                    assert(extra@.subrange(0, i + 1) =~= extra@.subrange(0, i as int).push(
                        extra@[i as int],
                    ));
                    let ghost before = texts(command.args@);
                    let item = extra[i].clone();
                    command.args.push(item);
                    assert(texts(command.args@) =~= before.push(item@));
                    i += 1;
                    assert(texts(command.args@) =~= fixed + texts(extra@.subrange(0, i as int)));
                }
                assert(extra@.subrange(0, extra@.len() as int) =~= extra@);
            },
            None => {
                assert(texts(command.args@) =~= compiled + Self::harness_args()
                    + self.spec_extra_args());
            },
        }
        command
    }
}

} // verus!
