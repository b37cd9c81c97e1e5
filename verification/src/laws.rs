//! The resolution laws: what holds of flag resolution for every
//! configuration, scheduler and mode.

use vstd::prelude::*;

use crate::config::default_sched_model;
use crate::config::find_sched;
use crate::config::is_default_config;
use crate::config::mode_field;
use crate::config::spec_resolve;
use crate::config::Config;
use crate::config::Sched;
use crate::defaults::default_flags;
use crate::sched::sched_name;
use crate::sched::SchedMode;
use crate::sched::SupportedSched;

verus! {

/// Law: the built-in fallback configuration is observationally identical to
/// the built-in flag table — resolving any (scheduler, mode) pair against
/// it yields exactly the table's entry.
pub proof fn lemma_default_config_matches_table(c: Config, s: SupportedSched, m: SchedMode)
    requires
        is_default_config(c),
    ensures
        spec_resolve(c, s, m) == default_flags(s, m),
{
    reveal_strlit("scx_bpfland");
    reveal_strlit("scx_rusty");
    reveal_strlit("scx_lavd");
    assert(sched_name(SupportedSched::Bpfland).len() == 11);
    assert(sched_name(SupportedSched::Rusty).len() == 9);
    assert(sched_name(SupportedSched::Lavd).len() == 8);
    let entries = c.scheds@;
    match s {
        SupportedSched::Bpfland => {
            crate::config::lemma_find_sched_hit(entries, sched_name(s), 0);
        },
        SupportedSched::Rusty => {
            assert(entries[0].0@ != sched_name(s));
            crate::config::lemma_find_sched_hit(entries, sched_name(s), 1);
        },
        SupportedSched::Lavd => {
            assert(entries[0].0@ != sched_name(s));
            assert(entries[1].0@ != sched_name(s));
            crate::config::lemma_find_sched_hit(entries, sched_name(s), 2);
        },
    }
    assert(mode_field(default_sched_model(s), m) == Some(default_flags(s, m)));
}

/// Law: a configuration that stores no record for a scheduler resolves
/// every mode of that scheduler to the built-in flag table.
pub proof fn lemma_unconfigured_sched_uses_default(c: Config, s: SupportedSched, m: SchedMode)
    requires
        find_sched(c.scheds@, sched_name(s)) is None,
    ensures
        spec_resolve(c, s, m) == default_flags(s, m),
{
}

/// Law: fallback is per mode field. A record's override decides exactly the
/// mode it names; a mode the record leaves unset falls back to the built-in
/// flag table, even when the record overrides other modes.
pub proof fn lemma_override_is_per_mode_field(c: Config, s: SupportedSched, m: SchedMode, e: Sched)
    requires
        find_sched(c.scheds@, sched_name(s)) == Some(e),
    ensures
        mode_field(e@, m) matches Some(flags) ==> spec_resolve(c, s, m) == flags,
        mode_field(e@, m) is None ==> spec_resolve(c, s, m) == default_flags(s, m),
{
}

/// Law: an explicitly empty override is a final answer, distinguishable
/// from an absent field — resolution yields the empty flag list, not the
/// built-in table entry.
pub proof fn lemma_empty_override_is_final(c: Config, s: SupportedSched, m: SchedMode, e: Sched)
    requires
        find_sched(c.scheds@, sched_name(s)) == Some(e),
        mode_field(e@, m) == Some(Seq::<Seq<char>>::empty()),
    ensures
        spec_resolve(c, s, m) == Seq::<Seq<char>>::empty(),
{
}

} // verus!
