//! Electrical quantities as distinct integer newtypes, so that a current is
//! accepted only where a current is expected.

use vstd::prelude::*;

verus! {

/// A current in milliamperes.
#[derive(Debug, Clone, Copy, PartialEq, Eq, Structural, PartialOrd, Ord, Hash)]
pub struct MilliAmp(pub u16);

/// A voltage in millivolts.
#[derive(Debug, Clone, Copy, PartialEq, Eq, Structural, PartialOrd, Ord, Hash)]
pub struct MilliVolt(pub u16);

impl View for MilliAmp {
    type V = int;

    open spec fn view(&self) -> int {
        self.0 as int
    }
}

impl View for MilliVolt {
    type V = int;

    open spec fn view(&self) -> int {
        self.0 as int
    }
}

impl MilliAmp {
    /// Wraps a raw milliampere count.
    pub fn new(raw: u16) -> (r: Self)
        ensures
            r == MilliAmp(raw),
    {
        MilliAmp(raw)
    }

    /// The raw milliampere count.
    pub fn into_inner(self) -> (raw: u16)
        ensures
            raw == self.0,
    {
        self.0
    }
}

impl MilliVolt {
    /// Wraps a raw millivolt count.
    pub fn new(raw: u16) -> (r: Self)
        ensures
            r == MilliVolt(raw),
    {
        MilliVolt(raw)
    }

    /// The raw millivolt count.
    pub fn into_inner(self) -> (raw: u16)
        ensures
            raw == self.0,
    {
        self.0
    }
}

impl From<u16> for MilliAmp {
    fn from(raw: u16) -> (r: MilliAmp) {
        MilliAmp(raw)
    }
}

impl vstd::std_specs::convert::FromSpecImpl<u16> for MilliAmp {
    open spec fn obeys_from_spec() -> bool {
        true
    }

    open spec fn from_spec(raw: u16) -> MilliAmp {
        MilliAmp(raw)
    }
}

impl From<MilliAmp> for u16 {
    fn from(value: MilliAmp) -> (r: u16) {
        value.0
    }
}

impl vstd::std_specs::convert::FromSpecImpl<MilliAmp> for u16 {
    open spec fn obeys_from_spec() -> bool {
        true
    }

    open spec fn from_spec(value: MilliAmp) -> u16 {
        value.0
    }
}

impl From<u16> for MilliVolt {
    fn from(raw: u16) -> (r: MilliVolt) {
        MilliVolt(raw)
    }
}

impl vstd::std_specs::convert::FromSpecImpl<u16> for MilliVolt {
    open spec fn obeys_from_spec() -> bool {
        true
    }

    open spec fn from_spec(raw: u16) -> MilliVolt {
        MilliVolt(raw)
    }
}

impl From<MilliVolt> for u16 {
    fn from(value: MilliVolt) -> (r: u16) {
        value.0
    }
}

impl vstd::std_specs::convert::FromSpecImpl<MilliVolt> for u16 {
    open spec fn obeys_from_spec() -> bool {
        true
    }

    open spec fn from_spec(value: MilliVolt) -> u16 {
        value.0
    }
}

impl Default for MilliAmp {
    fn default() -> (r: Self)
        ensures
            r == MilliAmp(0),
    {
        MilliAmp(0)
    }
}

impl Default for MilliVolt {
    fn default() -> (r: Self)
        ensures
            r == MilliVolt(0),
    {
        MilliVolt(0)
    }
}

} // verus!
