//! The persisted display flags and the metric identifiers.

use vstd::prelude::*;

verus! {

/// The three metrics the applet can show.
#[derive(Debug, Clone, Copy, PartialEq, Eq, Structural)]
pub enum UsageElement {
    Cpu,
    Memory,
    Swap,
}

/// Configuration data that persists between application runs: one
/// enabled/disabled flag per metric. The external configuration store
/// loads and saves values of this type; absent or mismatched stored
/// data falls back to `Config::default()`, all disabled.
#[derive(Debug, Clone, Copy, PartialEq, Eq, Structural)]
pub struct Config {
    pub cpu_enabled: bool,
    pub memory_enabled: bool,
    pub swap_enabled: bool,
}

impl Config {
    /// Whether the given metric is currently enabled.
    pub open spec fn spec_enabled(self, e: UsageElement) -> bool {
        match e {
            UsageElement::Cpu => self.cpu_enabled,
            UsageElement::Memory => self.memory_enabled,
            UsageElement::Swap => self.swap_enabled,
        }
    }

    /// The flag set with exactly the given metric's flag flipped.
    pub open spec fn spec_toggled(self, e: UsageElement) -> Config {
        match e {
            UsageElement::Cpu => Config { cpu_enabled: !self.cpu_enabled, ..self },
            UsageElement::Memory => Config { memory_enabled: !self.memory_enabled, ..self },
            UsageElement::Swap => Config { swap_enabled: !self.swap_enabled, ..self },
        }
    }

    /// Read one flag.
    pub fn enabled(&self, e: UsageElement) -> (r: bool)
        ensures
            r == self.spec_enabled(e),
    {
        match e {
            UsageElement::Cpu => self.cpu_enabled,
            UsageElement::Memory => self.memory_enabled,
            UsageElement::Swap => self.swap_enabled,
        }
    }

    /// Flip exactly one flag, leaving the other two untouched, and
    /// return the flag's new value.
    pub fn toggle(&mut self, e: UsageElement) -> (enabled: bool)
        ensures
            *final(self) == old(self).spec_toggled(e),
            enabled == final(self).spec_enabled(e),
    {
        match e {
            UsageElement::Cpu => {
                self.cpu_enabled = !self.cpu_enabled;
                self.cpu_enabled
            },
            UsageElement::Memory => {
                self.memory_enabled = !self.memory_enabled;
                self.memory_enabled
            },
            UsageElement::Swap => {
                self.swap_enabled = !self.swap_enabled;
                self.swap_enabled
            },
        }
    }
}

impl Default for Config {
    /// All metrics start disabled until the user enables them.
    fn default() -> (c: Config)
        ensures
            !c.cpu_enabled,
            !c.memory_enabled,
            !c.swap_enabled,
    {
        Config { cpu_enabled: false, memory_enabled: false, swap_enabled: false }
    }
}

} // verus!
