//! The built-in flag table: the compiled-in mapping from (scheduler, mode)
//! to the flag tokens used when no configuration overrides them.

use vstd::prelude::*;

use crate::sched::SchedMode;
use crate::sched::SupportedSched;

verus! {

/// The built-in flag table, total over every (scheduler, mode) pair.
///
/// Auto carries no built-in flags for any scheduler, and the rusty
/// scheduler takes no mode-specific flags at all.
pub open spec fn default_flags(s: SupportedSched, m: SchedMode) -> Seq<Seq<char>> {
    match s {
        SupportedSched::Bpfland => match m {
            SchedMode::Gaming => seq!["-k"@, "-m"@, "performance"@],
            SchedMode::LowLatency => seq!["--lowlatency"@],
            SchedMode::PowerSave => seq!["-m"@, "powersave"@],
            SchedMode::Auto => Seq::<Seq<char>>::empty(),
        },
        SupportedSched::Lavd => match m {
            SchedMode::Gaming => seq!["--performance"@],
            SchedMode::LowLatency => seq!["--performance"@],
            SchedMode::PowerSave => seq!["--powersave"@],
            SchedMode::Auto => Seq::<Seq<char>>::empty(),
        },
        SupportedSched::Rusty => Seq::<Seq<char>>::empty(),
    }
}

/// The built-in flags for the given scheduler and mode.
pub fn get_default_scx_flags_for_mode(scx_sched: &SupportedSched, sched_mode: SchedMode) -> (r:
    Vec<&'static str>)
    ensures
        r.deep_view() == default_flags(*scx_sched, sched_mode),
{
    let r: Vec<&'static str> = match scx_sched {
        SupportedSched::Bpfland => match sched_mode {
            SchedMode::Gaming => vec!["-k", "-m", "performance"],
            SchedMode::LowLatency => vec!["--lowlatency"],
            SchedMode::PowerSave => vec!["-m", "powersave"],
            SchedMode::Auto => Vec::new(),
        },
        SupportedSched::Lavd => match sched_mode {
            SchedMode::Gaming | SchedMode::LowLatency => vec!["--performance"],
            SchedMode::PowerSave => vec!["--powersave"],
            SchedMode::Auto => Vec::new(),
        },
        SupportedSched::Rusty => Vec::new(),
    };
    proof {
        assert(r.deep_view() =~= default_flags(*scx_sched, sched_mode));
    }
    r
}

/// The built-in flags for the given scheduler and mode, as owned strings.
pub fn owned_default_flags(scx_sched: &SupportedSched, sched_mode: SchedMode) -> (r: Vec<String>)
    ensures
        r.deep_view() == default_flags(*scx_sched, sched_mode),
{
    let raw = get_default_scx_flags_for_mode(scx_sched, sched_mode);
    let mut r: Vec<String> = Vec::new();
    let mut i: usize = 0;
    while i < raw.len()
        invariant
            i <= raw.len(),
            r@.len() == i,
            forall|j: int| 0 <= j < i ==> r@[j]@ == raw.deep_view()[j],
        decreases raw.len() - i,
    {
        let s: &str = raw[i];
        r.push(s.to_owned());
        i += 1;
    }
    proof {
        assert(r.deep_view() =~= raw.deep_view());
    }
    r
}

} // verus!
