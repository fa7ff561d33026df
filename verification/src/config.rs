//! The read-only configuration: applications, each with the ports it listens
//! on and the targets it forwards to.

use vstd::prelude::*;

verus! {

/// A named routing group: the ports to listen on and the `host:port` targets
/// to forward to, in the order given.
#[derive(Debug, Clone)]
pub struct AppConfig {
    name: String,
    ports: Vec<u16>,
    targets: Vec<String>,
}

/// The applications to serve, in the order given.
#[derive(Debug, Clone)]
pub struct Config {
    apps: Vec<AppConfig>,
}

/// Why a configuration is refused. The number is the position of the first
/// application at fault.
#[derive(Debug, Clone, Copy, PartialEq, Eq, Structural)]
pub enum ConfigError {
    /// The application lists no port.
    NoPorts(usize),
    /// The application lists a port but no target.
    NoTargets(usize),
}

impl ConfigError {
    /// The position of the application at fault.
    pub open spec fn app(self) -> usize {
        match self {
            ConfigError::NoPorts(i) => i,
            ConfigError::NoTargets(i) => i,
        }
    }
}

impl AppConfig {
    pub closed spec fn spec_name(&self) -> Seq<char> {
        self.name@
    }

    pub closed spec fn spec_ports(&self) -> Seq<u16> {
        self.ports@
    }

    pub closed spec fn spec_targets(&self) -> Seq<String> {
        self.targets@
    }

    /// An application needs at least one port and at least one target.
    pub open spec fn valid(&self) -> bool {
        self.spec_ports().len() > 0 && self.spec_targets().len() > 0
    }

    pub fn new(name: String, ports: Vec<u16>, targets: Vec<String>) -> (r: Self)
        ensures
            r.spec_name() == name@,
            r.spec_ports() == ports@,
            r.spec_targets() == targets@,
    {
        AppConfig { name, ports, targets }
    }

    pub fn name(&self) -> (r: &str)
        ensures
            r@ == self.spec_name(),
    {
        self.name.as_str()
    }

    pub fn ports(&self) -> (r: &Vec<u16>)
        ensures
            r@ == self.spec_ports(),
    {
        &self.ports
    }

    pub fn targets(&self) -> (r: &Vec<String>)
        ensures
            r@ == self.spec_targets(),
    {
        &self.targets
    }
}

impl Config {
    pub closed spec fn spec_apps(&self) -> Seq<AppConfig> {
        self.apps@
    }

    /// Every application has a port and a target.
    pub open spec fn valid(&self) -> bool {
        forall|i: int| 0 <= i < self.spec_apps().len() ==> (#[trigger] self.spec_apps()[i]).valid()
    }

    /// Whether application number `i` is the first that lacks a port or a
    /// target.
    pub open spec fn first_at_fault(&self, i: int) -> bool {
        &&& 0 <= i < self.spec_apps().len()
        &&& !self.spec_apps()[i].valid()
        &&& forall|j: int| 0 <= j < i ==> (#[trigger] self.spec_apps()[j]).valid()
    }

    pub fn new(apps: Vec<AppConfig>) -> (r: Self)
        ensures
            r.spec_apps() == apps@,
    {
        Config { apps }
    }

    pub fn apps(&self) -> (r: &Vec<AppConfig>)
        ensures
            r@ == self.spec_apps(),
    {
        &self.apps
    }

    /// Accepts a configuration in which every application has a port and a
    /// target, and otherwise names the first application that lacks one. A
    /// configuration without applications is accepted.
    pub fn validate(&self) -> (r: Result<(), ConfigError>)
        ensures
            r.is_ok() <==> self.valid(),
            r matches Err(e) ==> e.app() < self.spec_apps().len(),
            r matches Err(e) ==> self.first_at_fault(e.app() as int),
            r matches Err(ConfigError::NoPorts(i)) ==> self.spec_apps()[i as int].spec_ports().len()
                == 0,
            r matches Err(ConfigError::NoTargets(i)) ==> self.spec_apps()[i as int].spec_ports().len()
                > 0,
    {
        let mut i: usize = 0;
        while i < self.apps.len()
            invariant
                i <= self.apps@.len(),
                forall|j: int| 0 <= j < i ==> (#[trigger] self.spec_apps()[j]).valid(),
            decreases self.apps@.len() - i,
        {
            let app = &self.apps[i];
            if app.ports.len() == 0 {
                assert(!self.spec_apps()[i as int].valid());
                return Err(ConfigError::NoPorts(i));
            }
            if app.targets.len() == 0 {
                assert(!self.spec_apps()[i as int].valid());
                return Err(ConfigError::NoTargets(i));
            }
            i += 1;
        }
        Ok(())
    }
}

} // verus!
