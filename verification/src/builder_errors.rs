//! The same builder-pattern configuration, with fallible setters: a
//! setter that is handed a value out of range reports it instead of
//! accepting it.

use vstd::prelude::*;

verus! {

/// The largest value [`ThingConfig::with_setting`] accepts.
pub const MAX_SETTING: usize = 10;

/// Why a configuration step was refused.
#[derive(Clone, Copy, PartialEq, Eq, Structural, Debug)]
pub enum ThingError {
    /// The first setting must be between 0 and [`MAX_SETTING`].
    SettingOutOfRange,
}

impl ThingError {
    /// The human-readable description of the error.
    pub fn message(&self) -> (m: &'static str)
        ensures
            m@ == "Setting must be between 0 and 10"@,
    {
        "Setting must be between 0 and 10"
    }
}

/// A configuration assembled step by step, where each step may refuse.
pub struct ThingConfig {
    do_a: bool,
    do_b: bool,
    setting: usize,
    another_setting: usize,
}

impl ThingConfig {
    /// Whether behaviour A was requested.
    pub closed spec fn spec_does_a(&self) -> bool {
        self.do_a
    }

    /// Whether behaviour B was requested.
    pub closed spec fn spec_does_b(&self) -> bool {
        self.do_b
    }

    /// The first numeric setting.
    pub closed spec fn spec_setting(&self) -> usize {
        self.setting
    }

    /// The second numeric setting.
    pub closed spec fn spec_another_setting(&self) -> usize {
        self.another_setting
    }

    /// The default configuration: both behaviours off, both settings zero.
    pub fn new() -> (c: ThingConfig)
        ensures
            !c.spec_does_a(),
            !c.spec_does_b(),
            c.spec_setting() == 0,
            c.spec_another_setting() == 0,
    {
        ThingConfig { do_a: false, do_b: false, setting: 0, another_setting: 0 }
    }

    /// Request behaviour A.  This step never refuses.
    pub fn do_a(self) -> (r: Result<ThingConfig, ThingError>)
        ensures
            r matches Ok(c) && c.spec_does_a() && c.spec_does_b() == self.spec_does_b()
                && c.spec_setting() == self.spec_setting() && c.spec_another_setting()
                == self.spec_another_setting(),
    {
        let mut c = self;
        c.do_a = true;
        Ok(c)
    }

    /// Request behaviour B.  This step never refuses.
    pub fn do_b(self) -> (r: Result<ThingConfig, ThingError>)
        ensures
            r matches Ok(c) && c.spec_does_b() && c.spec_does_a() == self.spec_does_a()
                && c.spec_setting() == self.spec_setting() && c.spec_another_setting()
                == self.spec_another_setting(),
    {
        let mut c = self;
        c.do_b = true;
        Ok(c)
    }

    /// Replace the first setting.  Refused, with `SettingOutOfRange`, if
    /// and only if the value is above [`MAX_SETTING`].
    pub fn with_setting(self, setting: usize) -> (r: Result<ThingConfig, ThingError>)
        ensures
            setting <= MAX_SETTING ==> (r matches Ok(c) && c.spec_setting() == setting
                && c.spec_does_a() == self.spec_does_a() && c.spec_does_b() == self.spec_does_b()
                && c.spec_another_setting() == self.spec_another_setting()),
            setting > MAX_SETTING ==> (r matches Err(e) && e is SettingOutOfRange),
    {
        if setting > MAX_SETTING {
            Err(ThingError::SettingOutOfRange)
        } else {
            let mut c = self;
            c.setting = setting;
            Ok(c)
        }
    }

    /// Replace the second setting.  This step never refuses.
    pub fn with_another_setting(self, setting: usize) -> (r: Result<ThingConfig, ThingError>)
        ensures
            r matches Ok(c) && c.spec_another_setting() == setting && c.spec_does_a()
                == self.spec_does_a() && c.spec_does_b() == self.spec_does_b() && c.spec_setting()
                == self.spec_setting(),
    {
        let mut c = self;
        c.another_setting = setting;
        Ok(c)
    }

    /// Whether behaviour A was requested.
    pub fn does_a(&self) -> (b: bool)
        ensures
            b == self.spec_does_a(),
    {
        self.do_a
    }

    /// Whether behaviour B was requested.
    pub fn does_b(&self) -> (b: bool)
        ensures
            b == self.spec_does_b(),
    {
        self.do_b
    }

    /// The first numeric setting.
    pub fn setting(&self) -> (s: usize)
        ensures
            s == self.spec_setting(),
    {
        self.setting
    }

    /// The second numeric setting.
    pub fn another_setting(&self) -> (s: usize)
        ensures
            s == self.spec_another_setting(),
    {
        self.another_setting
    }
}

} // verus!
