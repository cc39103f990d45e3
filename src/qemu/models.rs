//! Structured configuration of the monitor's command-line options.
use vstd::prelude::*;

use super::args::{self, list_text, pair_properties, Arg, PropertyList, PropertyValue};

verus! {

/// An `on`/`off` switch
#[derive(Copy, Clone, Debug, PartialEq, Eq, Structural)]
pub enum OnOff {
    On,
    Off,
}

impl PropertyValue for OnOff {
    open spec fn spec_value(&self) -> Option<Seq<char>> {
        match self {
            OnOff::On => Some("on"@),
            OnOff::Off => Some("off"@),
        }
    }

    fn value(&self) -> (r: Option<String>) {
        match self {
            OnOff::On => Some("on".to_string()),
            OnOff::Off => Some("off".to_string()),
        }
    }
}

/// Discard strategy of a block device
#[derive(Copy, Clone, Debug, PartialEq, Eq, Structural)]
pub enum Discard {
    Ignore,
    Unmap,
}

impl PropertyValue for Discard {
    open spec fn spec_value(&self) -> Option<Seq<char>> {
        match self {
            Discard::Ignore => Some("ignore"@),
            Discard::Unmap => Some("unmap"@),
        }
    }

    fn value(&self) -> (r: Option<String>) {
        match self {
            Discard::Ignore => Some("ignore".to_string()),
            Discard::Unmap => Some("unmap".to_string()),
        }
    }
}

/// Boot options
#[derive(Clone, Debug)]
pub struct Boot {
    pub menu: Option<OnOff>,
    pub strict: Option<OnOff>,
    pub reboot_time: Option<String>,
    pub splash_time: Option<String>,
    pub splash: Option<String>,
    pub once: Option<String>,
    pub order: Option<String>,
}

impl Boot {
    pub open spec fn spec_properties(&self) -> Seq<(Seq<char>, Option<Seq<char>>)> {
        seq![
            ("menu"@, self.menu.spec_value()),
            ("strict"@, self.strict.spec_value()),
            ("reboot-time"@, self.reboot_time.spec_value()),
            ("splash-time"@, self.splash_time.spec_value()),
            ("splash"@, self.splash.spec_value()),
            ("once"@, self.once.spec_value()),
            ("order"@, self.order.spec_value()),
        ]
    }

    pub fn properties(&self) -> (r: PropertyList)
        ensures
            r@ == self.spec_properties(),
    {
        let mut props = PropertyList::default();
        props.insert("menu", &self.menu);
        props.insert("strict", &self.strict);
        props.insert("reboot-time", &self.reboot_time);
        props.insert("splash-time", &self.splash_time);
        props.insert("splash", &self.splash);
        props.insert("once", &self.once);
        props.insert("order", &self.order);
        assert(props@ =~= self.spec_properties());
        props
    }
}

impl Arg for Boot {
    open spec fn spec_arg(&self) -> Seq<char> {
        list_text(self.spec_properties())
    }

    fn to_arg(&self) -> (r: String) {
        self.properties().to_string()
    }
}

/// A block device
#[derive(Clone, Debug)]
pub struct BlockDev {
    /// Block device driver
    pub driver: String,
    /// Block node name
    pub node_name: String,
    /// Discard strategy
    pub discard: Option<Discard>,
    /// Further driver properties
    pub properties: Vec<(String, String)>,
}

impl BlockDev {
    pub open spec fn spec_properties(&self) -> Seq<(Seq<char>, Option<Seq<char>>)> {
        seq![
            ("driver"@, Some(self.driver@)),
            ("node-name"@, Some(self.node_name@)),
            ("discard"@, self.discard.spec_value()),
        ] + pair_properties(self.properties@)
    }

    pub fn properties(&self) -> (r: PropertyList)
        ensures
            r@ == self.spec_properties(),
    {
        let mut props = PropertyList::default();
        props.insert("driver", &self.driver);
        props.insert("node-name", &self.node_name);
        props.insert("discard", &self.discard);
        props.extend(&self.properties);
        assert(props@ =~= self.spec_properties());
        props
    }
}

impl Arg for BlockDev {
    open spec fn spec_arg(&self) -> Seq<char> {
        list_text(self.spec_properties())
    }

    fn to_arg(&self) -> (r: String) {
        self.properties().to_string()
    }
}

/// A named backend of an option: `name,id=<id>,<properties>`
#[derive(Clone, Debug)]
pub struct Backend<T> {
    pub backend: T,
    pub id: String,
}

impl<T: args::Backend> Arg for Backend<T> {
    open spec fn spec_arg(&self) -> Seq<char> {
        self.backend.spec_name() + ",id="@ + self.id@ + ","@ + list_text(
            self.backend.spec_properties(),
        )
    }

    fn to_arg(&self) -> (r: String) {
        let mut r = self.backend.name().to_string();
        r.append(",id=");
        r.append(self.id.as_str());
        r.append(",");
        let props = self.backend.properties().to_string();
        r.append(props.as_str());
        r
    }
}

/// A character device backend
#[derive(Clone, Debug)]
pub enum CharDev {
    Stdio,
    Socket { path: String },
}

impl args::Backend for CharDev {
    open spec fn spec_name(&self) -> Seq<char> {
        match self {
            CharDev::Stdio => "stdio"@,
            CharDev::Socket { .. } => "socket"@,
        }
    }

    open spec fn spec_properties(&self) -> Seq<(Seq<char>, Option<Seq<char>>)> {
        match self {
            CharDev::Stdio => Seq::empty(),
            CharDev::Socket { path } => seq![("path"@, Some(path@))],
        }
    }

    fn name(&self) -> (r: &str) {
        match self {
            CharDev::Stdio => "stdio",
            CharDev::Socket { .. } => "socket",
        }
    }

    fn properties(&self) -> (r: PropertyList) {
        let mut props = PropertyList::default();
        match self {
            CharDev::Stdio => {},
            CharDev::Socket { path } => {
                props.insert("path", path);
            },
        }
        assert(props@ =~= self.spec_properties());
        props
    }
}

/// A network device backend
#[derive(Clone, Debug)]
pub enum NetDev {
    User { ipv4: OnOff, net: String, host: String },
}

impl args::Backend for NetDev {
    open spec fn spec_name(&self) -> Seq<char> {
        match self {
            NetDev::User { .. } => "user"@,
        }
    }

    open spec fn spec_properties(&self) -> Seq<(Seq<char>, Option<Seq<char>>)> {
        match self {
            NetDev::User { ipv4, net, host } => seq![
                ("ipv4"@, ipv4.spec_value()),
                ("net"@, Some(net@)),
                ("host"@, Some(host@)),
            ],
        }
    }

    fn name(&self) -> (r: &str) {
        match self {
            NetDev::User { .. } => "user",
        }
    }

    fn properties(&self) -> (r: PropertyList) {
        let mut props = PropertyList::default();
        match self {
            NetDev::User { ipv4, net, host } => {
                props.insert("ipv4", ipv4);
                props.insert("net", net);
                props.insert("host", host);
            },
        }
        assert(props@ =~= self.spec_properties());
        props
    }
}

/// A device
#[derive(Clone, Debug)]
pub struct Device {
    /// Device driver
    pub driver: String,
    /// Device driver properties
    pub properties: Vec<(String, String)>,
}

impl Device {
    pub open spec fn spec_properties(&self) -> Seq<(Seq<char>, Option<Seq<char>>)> {
        seq![("driver"@, Some(self.driver@))] + pair_properties(self.properties@)
    }

    pub fn properties(&self) -> (r: PropertyList)
        ensures
            r@ == self.spec_properties(),
    {
        let mut props = PropertyList::default();
        props.insert("driver", &self.driver);
        props.extend(&self.properties);
        assert(props@ =~= self.spec_properties());
        props
    }
}

impl Arg for Device {
    open spec fn spec_arg(&self) -> Seq<char> {
        list_text(self.spec_properties())
    }

    fn to_arg(&self) -> (r: String) {
        self.properties().to_string()
    }
}

/// CPU topology
#[derive(Clone, Debug)]
pub struct Smp {
    /// Number of CPUs
    pub cpus: Option<usize>,
    /// Maximum CPUs
    pub maxcpus: Option<usize>,
    /// Number of dies
    pub dies: Option<usize>,
    /// Number of sockets
    pub sockets: Option<usize>,
    /// Number of clusters
    pub clusters: Option<usize>,
    /// Number of cores
    pub cores: Option<usize>,
    /// Number of threads
    pub threads: Option<usize>,
}

impl Smp {
    pub open spec fn spec_properties(&self) -> Seq<(Seq<char>, Option<Seq<char>>)> {
        seq![
            ("cpus"@, self.cpus.spec_value()),
            ("maxcpus"@, self.maxcpus.spec_value()),
            ("dies"@, self.dies.spec_value()),
            ("sockets"@, self.sockets.spec_value()),
            ("clusters"@, self.clusters.spec_value()),
            ("cores"@, self.cores.spec_value()),
            ("threads"@, self.threads.spec_value()),
        ]
    }

    pub fn properties(&self) -> (r: PropertyList)
        ensures
            r@ == self.spec_properties(),
    {
        let mut props = PropertyList::default();
        props.insert("cpus", &self.cpus);
        props.insert("maxcpus", &self.maxcpus);
        props.insert("dies", &self.dies);
        props.insert("sockets", &self.sockets);
        props.insert("clusters", &self.clusters);
        props.insert("cores", &self.cores);
        props.insert("threads", &self.threads);
        assert(props@ =~= self.spec_properties());
        props
    }
}

impl Arg for Smp {
    open spec fn spec_arg(&self) -> Seq<char> {
        list_text(self.spec_properties())
    }

    fn to_arg(&self) -> (r: String) {
        self.properties().to_string()
    }
}

/// Machine type and properties
#[derive(Clone, Debug)]
pub struct Machine {
    /// Machine type
    pub machine_type: Option<String>,
    /// Further machine properties
    pub properties: Vec<(String, String)>,
}

impl Machine {
    pub open spec fn spec_properties(&self) -> Seq<(Seq<char>, Option<Seq<char>>)> {
        seq![("type"@, self.machine_type.spec_value())] + pair_properties(self.properties@)
    }

    pub fn properties(&self) -> (r: PropertyList)
        ensures
            r@ == self.spec_properties(),
    {
        let mut props = PropertyList::default();
        props.insert("type", &self.machine_type);
        props.extend(&self.properties);
        assert(props@ =~= self.spec_properties());
        props
    }
}

impl Arg for Machine {
    open spec fn spec_arg(&self) -> Seq<char> {
        list_text(self.spec_properties())
    }

    fn to_arg(&self) -> (r: String) {
        self.properties().to_string()
    }
}

} // verus!
