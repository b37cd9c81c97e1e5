//! The closed sets of scheduler identities and operating modes, and their
//! canonical names.

use vstd::prelude::*;

verus! {

/// The schedulers the loader knows about.
#[derive(Debug, Clone, Copy, PartialEq, Eq, Structural)]
pub enum SupportedSched {
    Bpfland,
    Rusty,
    Lavd,
}

/// The four operating modes a scheduler can be launched in.
#[derive(Debug, Clone, Copy, PartialEq, Eq, Structural)]
pub enum SchedMode {
    /// Default values for the scheduler
    Auto,
    /// Applies flags for better gaming experience
    Gaming,
    /// Applies flags for lower latency
    LowLatency,
    /// Starts scheduler in power save mode
    PowerSave,
}

/// Canonical name of a scheduler, used as the lookup key in a configuration.
pub open spec fn sched_name(s: SupportedSched) -> Seq<char> {
    match s {
        SupportedSched::Bpfland => "scx_bpfland"@,
        SupportedSched::Rusty => "scx_rusty"@,
        SupportedSched::Lavd => "scx_lavd"@,
    }
}

/// Which scheduler a canonical name denotes, if any.
pub open spec fn spec_sched_of_name(name: Seq<char>) -> Option<SupportedSched> {
    if name == sched_name(SupportedSched::Bpfland) {
        Some(SupportedSched::Bpfland)
    } else if name == sched_name(SupportedSched::Rusty) {
        Some(SupportedSched::Rusty)
    } else if name == sched_name(SupportedSched::Lavd) {
        Some(SupportedSched::Lavd)
    } else {
        None
    }
}

/// Name of a mode as it appears in a configuration document.
pub open spec fn mode_name(m: SchedMode) -> Seq<char> {
    match m {
        SchedMode::Auto => "Auto"@,
        SchedMode::Gaming => "Gaming"@,
        SchedMode::LowLatency => "LowLatency"@,
        SchedMode::PowerSave => "PowerSave"@,
    }
}

/// Which mode a name denotes, if any.
pub open spec fn spec_mode_of_name(name: Seq<char>) -> Option<SchedMode> {
    if name == mode_name(SchedMode::Auto) {
        Some(SchedMode::Auto)
    } else if name == mode_name(SchedMode::Gaming) {
        Some(SchedMode::Gaming)
    } else if name == mode_name(SchedMode::LowLatency) {
        Some(SchedMode::LowLatency)
    } else if name == mode_name(SchedMode::PowerSave) {
        Some(SchedMode::PowerSave)
    } else {
        None
    }
}

/// The canonical name of a scheduler.
pub fn get_name_from_scx(supported_sched: &SupportedSched) -> (r: &'static str)
    ensures
        r@ == sched_name(*supported_sched),
{
    match supported_sched {
        SupportedSched::Bpfland => "scx_bpfland",
        SupportedSched::Rusty => "scx_rusty",
        SupportedSched::Lavd => "scx_lavd",
    }
}

/// True exactly when the two strings hold the same characters.
pub fn str_eq(a: &str, b: &str) -> (r: bool)
    ensures
        r == (a@ == b@),
{
    let sa: String = a.to_owned();
    let sb: String = b.to_owned();
    sa == sb
}

/// The scheduler a canonical name denotes, if any.
pub fn sched_from_name(name: &str) -> (r: Option<SupportedSched>)
    ensures
        r == spec_sched_of_name(name@),
{
    if str_eq(name, "scx_bpfland") {
        Some(SupportedSched::Bpfland)
    } else if str_eq(name, "scx_rusty") {
        Some(SupportedSched::Rusty)
    } else if str_eq(name, "scx_lavd") {
        Some(SupportedSched::Lavd)
    } else {
        None
    }
}

/// The mode a name denotes, if any.
pub fn mode_from_name(name: &str) -> (r: Option<SchedMode>)
    ensures
        r == spec_mode_of_name(name@),
{
    if str_eq(name, "Auto") {
        Some(SchedMode::Auto)
    } else if str_eq(name, "Gaming") {
        Some(SchedMode::Gaming)
    } else if str_eq(name, "LowLatency") {
        Some(SchedMode::LowLatency)
    } else if str_eq(name, "PowerSave") {
        Some(SchedMode::PowerSave)
    } else {
        None
    }
}

} // verus!
