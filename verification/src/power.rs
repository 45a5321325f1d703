//! Power management for Jetson devices.
//!
//! The power modes of nvpmodel, the jetson_clocks switch and the profiles
//! that combine them.

use vstd::prelude::*;
use vstd::string::*;
use crate::error::Error;

verus! {

/// Power mode settings for nvpmodel.
#[derive(Debug, Clone, Copy, PartialEq, Eq, Hash, Structural)]
pub enum PowerMode {
    /// Maximum performance mode (MAXN)
    Maxn,
    /// 15W power budget
    Power15W,
    /// 7W power budget
    Power7W,
    /// Custom power mode ID
    Custom(u8),
}

impl PowerMode {
    /// The nvpmodel mode ID, as a specification.
    pub open spec fn spec_mode_id(self) -> u8 {
        match self {
            PowerMode::Maxn => 0,
            PowerMode::Power15W => 1,
            PowerMode::Power7W => 2,
            PowerMode::Custom(id) => id,
        }
    }

    /// The human-readable name, as a sequence of characters.
    pub open spec fn spec_name(self) -> Seq<char> {
        match self {
            PowerMode::Maxn => "MAXN"@,
            PowerMode::Power15W => "15W"@,
            PowerMode::Power7W => "7W"@,
            PowerMode::Custom(_) => "Custom"@,
        }
    }

    /// The power budget in watts, as a specification; `None` where the mode
    /// sets no limit.
    pub open spec fn spec_power_budget_watts(self) -> Option<u32> {
        match self {
            PowerMode::Maxn => None,
            PowerMode::Power15W => Some(15u32),
            PowerMode::Power7W => Some(7u32),
            PowerMode::Custom(_) => None,
        }
    }

    /// Get nvpmodel mode ID.
    #[must_use]
    pub fn mode_id(&self) -> (id: u8)
        ensures
            id == self.spec_mode_id(),
    {
        match self {
            PowerMode::Maxn => 0,
            PowerMode::Power15W => 1,
            PowerMode::Power7W => 2,
            PowerMode::Custom(id) => *id,
        }
    }

    /// Get human-readable name.
    #[must_use]
    pub fn name(&self) -> (name: &'static str)
        ensures
            name@ == self.spec_name(),
    {
        match self {
            PowerMode::Maxn => "MAXN",
            PowerMode::Power15W => "15W",
            PowerMode::Power7W => "7W",
            PowerMode::Custom(_) => "Custom",
        }
    }

    /// Get power budget in watts.
    #[must_use]
    pub fn power_budget_watts(&self) -> (watts: Option<u32>)
        ensures
            watts == self.spec_power_budget_watts(),
    {
        match self {
            PowerMode::Maxn => None,
            PowerMode::Power15W => Some(15),
            PowerMode::Power7W => Some(7),
            PowerMode::Custom(_) => None,
        }
    }

    /// The human-readable name as an owned string.
    #[must_use]
    pub fn to_string(&self) -> (name: String)
        ensures
            name@ == self.spec_name(),
    {
        String::from_str(self.name())
    }
}

impl Default for PowerMode {
    fn default() -> (mode: Self)
        ensures
            mode == PowerMode::Maxn,
    {
        PowerMode::Maxn
    }
}

/// Jetson clocks controller.
#[derive(Debug)]
pub struct JetsonClocks {
    enabled: bool,
}

impl JetsonClocks {
    /// Whether maximum clocks are enabled, as a specification.
    pub closed spec fn spec_is_enabled(&self) -> bool {
        self.enabled
    }

    /// Create new clocks controller, with maximum clocks disabled.
    #[must_use]
    pub fn new() -> (clocks: Self)
        ensures
            !clocks.spec_is_enabled(),
    {
        JetsonClocks { enabled: false }
    }

    /// Enable maximum clocks.
    pub fn enable(&mut self) -> (outcome: Result<(), Error>)
        ensures
            outcome is Ok,
            final(self).spec_is_enabled(),
    {
        self.enabled = true;
        Ok(())
    }

    /// Disable maximum clocks (restore defaults).
    pub fn disable(&mut self) -> (outcome: Result<(), Error>)
        ensures
            outcome is Ok,
            !final(self).spec_is_enabled(),
    {
        self.enabled = false;
        Ok(())
    }

    /// Check if maximum clocks are enabled.
    #[must_use]
    #[verifier::when_used_as_spec(spec_is_enabled)]
    pub fn is_enabled(&self) -> (enabled: bool)
        ensures
            enabled == self.spec_is_enabled(),
    {
        self.enabled
    }
}

impl Default for JetsonClocks {
    fn default() -> (clocks: Self)
        ensures
            !clocks.spec_is_enabled(),
    {
        JetsonClocks::new()
    }
}

/// Power profile configuration.
#[derive(Debug, Clone, Copy)]
pub struct PowerProfile {
    /// Power mode
    pub mode: PowerMode,
    /// Enable jetson_clocks
    pub enable_clocks: bool,
    /// Fan speed (0-255)
    pub fan_speed: u8,
}

impl PowerProfile {
    /// The balanced profile, as a specification.
    pub open spec fn spec_balanced() -> PowerProfile {
        PowerProfile { mode: PowerMode::Power15W, enable_clocks: false, fan_speed: 128 }
    }

    /// Maximum performance profile.
    #[must_use]
    pub fn max_performance() -> (profile: Self)
        ensures
            profile == (PowerProfile { mode: PowerMode::Maxn, enable_clocks: true, fan_speed: 255 }),
    {
        PowerProfile { mode: PowerMode::Maxn, enable_clocks: true, fan_speed: 255 }
    }

    /// Balanced profile.
    #[must_use]
    pub fn balanced() -> (profile: Self)
        ensures
            profile == Self::spec_balanced(),
    {
        PowerProfile { mode: PowerMode::Power15W, enable_clocks: false, fan_speed: 128 }
    }

    /// Power saving profile.
    #[must_use]
    pub fn power_saver() -> (profile: Self)
        ensures
            profile == (PowerProfile {
                mode: PowerMode::Power7W,
                enable_clocks: false,
                fan_speed: 64,
            }),
    {
        PowerProfile { mode: PowerMode::Power7W, enable_clocks: false, fan_speed: 64 }
    }
}

impl Default for PowerProfile {
    fn default() -> (profile: Self)
        ensures
            profile == PowerProfile::spec_balanced(),
    {
        PowerProfile::balanced()
    }
}

} // verus!
