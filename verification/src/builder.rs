//! A builder-pattern configuration value whose every setter is pinned down
//! by contract.

use vstd::prelude::*;

verus! {

/// A configuration assembled step by step: two switchable behaviours and
/// two numeric settings.
pub struct ThingConfig {
    do_a: bool,
    do_b: bool,
    setting: usize,
    another_setting: usize,
}

impl ThingConfig {
    /// Whether behaviour A was requested.
    pub closed spec fn spec_does_a(&self) -> bool {
        self.do_a
    }

    /// Whether behaviour B was requested.
    pub closed spec fn spec_does_b(&self) -> bool {
        self.do_b
    }

    /// The first numeric setting.
    pub closed spec fn spec_setting(&self) -> usize {
        self.setting
    }

    /// The second numeric setting.
    pub closed spec fn spec_another_setting(&self) -> usize {
        self.another_setting
    }

    /// The default configuration: both behaviours off, both settings zero.
    pub fn new() -> (c: ThingConfig)
        ensures
            !c.spec_does_a(),
            !c.spec_does_b(),
            c.spec_setting() == 0,
            c.spec_another_setting() == 0,
    {
        ThingConfig { do_a: false, do_b: false, setting: 0, another_setting: 0 }
    }

    /// Request behaviour A; everything else is kept.
    pub fn do_a(self) -> (c: ThingConfig)
        ensures
            c.spec_does_a(),
            c.spec_does_b() == self.spec_does_b(),
            c.spec_setting() == self.spec_setting(),
            c.spec_another_setting() == self.spec_another_setting(),
    {
        let mut c = self;
        c.do_a = true;
        c
    }

    /// Request behaviour B; everything else is kept.
    pub fn do_b(self) -> (c: ThingConfig)
        ensures
            c.spec_does_b(),
            c.spec_does_a() == self.spec_does_a(),
            c.spec_setting() == self.spec_setting(),
            c.spec_another_setting() == self.spec_another_setting(),
    {
        let mut c = self;
        c.do_b = true;
        c
    }

    /// Replace the first setting; everything else is kept.
    pub fn with_setting(self, setting: usize) -> (c: ThingConfig)
        ensures
            c.spec_setting() == setting,
            c.spec_does_a() == self.spec_does_a(),
            c.spec_does_b() == self.spec_does_b(),
            c.spec_another_setting() == self.spec_another_setting(),
    {
        let mut c = self;
        c.setting = setting;
        c
    }

    /// Replace the second setting; everything else is kept.
    pub fn with_another_setting(self, setting: usize) -> (c: ThingConfig)
        ensures
            c.spec_another_setting() == setting,
            c.spec_does_a() == self.spec_does_a(),
            c.spec_does_b() == self.spec_does_b(),
            c.spec_setting() == self.spec_setting(),
    {
        let mut c = self;
        c.another_setting = setting;
        c
    }

    /// Whether behaviour A was requested.
    pub fn does_a(&self) -> (b: bool)
        ensures
            b == self.spec_does_a(),
    {
        self.do_a
    }

    /// Whether behaviour B was requested.
    pub fn does_b(&self) -> (b: bool)
        ensures
            b == self.spec_does_b(),
    {
        self.do_b
    }

    /// The first numeric setting.
    pub fn setting(&self) -> (s: usize)
        ensures
            s == self.spec_setting(),
    {
        self.setting
    }

    /// The second numeric setting.
    pub fn another_setting(&self) -> (s: usize)
        ensures
            s == self.spec_another_setting(),
    {
        self.another_setting
    }
}

} // verus!
