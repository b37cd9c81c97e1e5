//! The configuration model and the flag-resolution algorithm.
//!
//! A [`Config`] holds the optional user-chosen defaults and a per-scheduler
//! record of optional per-mode flag overrides. [`get_scx_flags_for_mode`]
//! resolves a (scheduler, mode) query: an override present in the
//! configuration — even an explicitly empty one — is final; anything absent
//! falls back to the built-in flag table, per mode field.

use vstd::prelude::*;

use crate::defaults::default_flags;
use crate::defaults::owned_default_flags;
use crate::sched::get_name_from_scx;
use crate::sched::mode_from_name;
use crate::sched::sched_from_name;
use crate::sched::sched_name;
use crate::sched::spec_mode_of_name;
use crate::sched::spec_sched_of_name;
use crate::sched::str_eq;
use crate::sched::SchedMode;
use crate::sched::SupportedSched;
use crate::tomlread::models_of;
use crate::tomlread::parse_toml_table;
use crate::tomlread::table_entries;
use crate::tomlread::table_get;
use crate::tomlread::table_model;
use crate::tomlread::toml_table_of;
use crate::tomlread::value_as_array;
use crate::tomlread::value_as_str;
use crate::tomlread::value_as_table;
use crate::tomlread::value_model;
use crate::tomlread::TomlModel;

verus! {

/// Why loading a configuration failed.
#[derive(Debug, Clone, Copy, PartialEq, Eq, Structural)]
pub enum ConfigError {
    /// No configuration file exists at any known path.
    NotFound,
    /// The configuration file exists but is empty.
    EmptyFile,
    /// The text is not a valid document, or does not match the schema.
    Parse,
}

/// Per-scheduler record: for each mode, an optional list of flag tokens.
///
/// `None` means the mode is not mentioned and the built-in default applies;
/// `Some` — even of an empty list — is an explicit, final override.
#[derive(Debug)]
pub struct Sched {
    pub auto_mode: Option<Vec<String>>,
    pub gaming_mode: Option<Vec<String>>,
    pub lowlatency_mode: Option<Vec<String>>,
    pub powersave_mode: Option<Vec<String>>,
}

/// The mathematical content of a [`Sched`] record.
pub ghost struct SchedModel {
    pub auto_mode: Option<Seq<Seq<char>>>,
    pub gaming_mode: Option<Seq<Seq<char>>>,
    pub lowlatency_mode: Option<Seq<Seq<char>>>,
    pub powersave_mode: Option<Seq<Seq<char>>>,
}

impl View for Sched {
    type V = SchedModel;

    open spec fn view(&self) -> SchedModel {
        SchedModel {
            auto_mode: self.auto_mode.deep_view(),
            gaming_mode: self.gaming_mode.deep_view(),
            lowlatency_mode: self.lowlatency_mode.deep_view(),
            powersave_mode: self.powersave_mode.deep_view(),
        }
    }
}

/// The root configuration: optional chosen defaults, and per-scheduler
/// records keyed by canonical scheduler name. Keys that match no known
/// scheduler are retained but never consulted.
#[derive(Debug)]
pub struct Config {
    pub default_sched: Option<SupportedSched>,
    pub default_mode: Option<SchedMode>,
    pub scheds: Vec<(String, Sched)>,
}

/// First record stored under the given name, if any.
pub open spec fn find_sched(entries: Seq<(String, Sched)>, name: Seq<char>) -> Option<Sched>
    decreases entries.len(),
{
    if entries.len() == 0 {
        None
    } else if entries[0].0@ == name {
        Some(entries[0].1)
    } else {
        find_sched(entries.drop_first(), name)
    }
}

/// The model of an optional record.
pub open spec fn opt_sched_model(o: Option<Sched>) -> Option<SchedModel> {
    match o {
        Some(s) => Some(s@),
        None => None,
    }
}

/// The field of a record that belongs to the given mode.
pub open spec fn mode_field(s: SchedModel, m: SchedMode) -> Option<Seq<Seq<char>>> {
    match m {
        SchedMode::Auto => s.auto_mode,
        SchedMode::Gaming => s.gaming_mode,
        SchedMode::LowLatency => s.lowlatency_mode,
        SchedMode::PowerSave => s.powersave_mode,
    }
}

/// The flags a configuration resolves to for a scheduler and mode: the
/// configured override where one is present, the built-in default otherwise.
pub open spec fn spec_resolve(c: Config, s: SupportedSched, m: SchedMode) -> Seq<Seq<char>> {
    match find_sched(c.scheds@, sched_name(s)) {
        Some(entry) => match mode_field(entry@, m) {
            Some(flags) => flags,
            None => default_flags(s, m),
        },
        None => default_flags(s, m),
    }
}

/// A record that spells out the built-in flags of a scheduler for all four
/// modes.
pub open spec fn default_sched_model(s: SupportedSched) -> SchedModel {
    SchedModel {
        auto_mode: Some(default_flags(s, SchedMode::Auto)),
        gaming_mode: Some(default_flags(s, SchedMode::Gaming)),
        lowlatency_mode: Some(default_flags(s, SchedMode::LowLatency)),
        powersave_mode: Some(default_flags(s, SchedMode::PowerSave)),
    }
}

/// The built-in fallback configuration: no chosen scheduler, Auto as the
/// chosen mode, and every known scheduler's record spelling out the
/// built-in flag table.
pub open spec fn is_default_config(c: Config) -> bool {
    &&& c.default_sched is None
    &&& c.default_mode == Some(SchedMode::Auto)
    &&& c.scheds@.len() == 3
    &&& c.scheds@[0].0@ == sched_name(SupportedSched::Bpfland)
    &&& c.scheds@[0].1@ == default_sched_model(SupportedSched::Bpfland)
    &&& c.scheds@[1].0@ == sched_name(SupportedSched::Rusty)
    &&& c.scheds@[1].1@ == default_sched_model(SupportedSched::Rusty)
    &&& c.scheds@[2].0@ == sched_name(SupportedSched::Lavd)
    &&& c.scheds@[2].1@ == default_sched_model(SupportedSched::Lavd)
}

/// A copy of a flag list.
fn clone_flags(v: &Vec<String>) -> (r: Vec<String>)
    ensures
        r.deep_view() == v.deep_view(),
{
    let mut r: Vec<String> = Vec::new();
    let mut i: usize = 0;
    while i < v.len()
        invariant
            i <= v.len(),
            r@.len() == i,
            forall|j: int| 0 <= j < i ==> r@[j]@ == v@[j]@,
        decreases v.len() - i,
    {
        r.push(v[i].clone());
        i += 1;
    }
    proof {
        assert(r.deep_view() =~= v.deep_view());
    }
    r
}

/// A copy of an optional flag list.
fn clone_opt_flags(v: &Option<Vec<String>>) -> (r: Option<Vec<String>>)
    ensures
        r.deep_view() == v.deep_view(),
{
    match v {
        Some(flags) => Some(clone_flags(flags)),
        None => None,
    }
}

pub proof fn lemma_find_sched_hit(entries: Seq<(String, Sched)>, name: Seq<char>, i: int)
    requires
        0 <= i < entries.len(),
        entries[i].0@ == name,
        forall|j: int| 0 <= j < i ==> entries[j].0@ != name,
    ensures
        find_sched(entries, name) == Some(entries[i].1),
    decreases i,
{
    if i > 0 {
        lemma_find_sched_hit(entries.drop_first(), name, i - 1);
    }
}

pub proof fn lemma_find_sched_miss(entries: Seq<(String, Sched)>, name: Seq<char>)
    requires
        forall|j: int| 0 <= j < entries.len() ==> entries[j].0@ != name,
    ensures
        find_sched(entries, name) is None,
    decreases entries.len(),
{
    if entries.len() > 0 {
        lemma_find_sched_miss(entries.drop_first(), name);
    }
}

/// First record stored under the given name, if any.
pub fn find_in<'a>(entries: &'a Vec<(String, Sched)>, name: &str) -> (r: Option<&'a Sched>)
    ensures
        r matches Some(s) ==> find_sched(entries@, name@) == Some(*s),
        r is None ==> find_sched(entries@, name@) is None,
{
    let mut i: usize = 0;
    while i < entries.len()
        invariant
            i <= entries.len(),
            forall|j: int| 0 <= j < i ==> entries@[j].0@ != name@,
        decreases entries.len() - i,
    {
        if str_eq(entries[i].0.as_str(), name) {
            proof {
                lemma_find_sched_hit(entries@, name@, i as int);
            }
            return Some(&entries[i].1);
        }
        i += 1;
    }
    proof {
        lemma_find_sched_miss(entries@, name@);
    }
    None
}

/// The configured override of the record for the given mode, if present.
pub fn extract_scx_flags_from_config(sched_config: &Sched, sched_mode: &SchedMode) -> (r: Option<
    Vec<String>,
>)
    ensures
        r.deep_view() == mode_field(sched_config@, *sched_mode),
{
    match sched_mode {
        SchedMode::Gaming => clone_opt_flags(&sched_config.gaming_mode),
        SchedMode::LowLatency => clone_opt_flags(&sched_config.lowlatency_mode),
        SchedMode::PowerSave => clone_opt_flags(&sched_config.powersave_mode),
        SchedMode::Auto => clone_opt_flags(&sched_config.auto_mode),
    }
}

/// A record for the configuration that spells out the built-in flags of the
/// given scheduler for all four modes.
pub fn get_default_sched_for_config(scx_sched: &SupportedSched) -> (r: Sched)
    ensures
        r@ == default_sched_model(*scx_sched),
{
    Sched {
        auto_mode: Some(owned_default_flags(scx_sched, SchedMode::Auto)),
        gaming_mode: Some(owned_default_flags(scx_sched, SchedMode::Gaming)),
        lowlatency_mode: Some(owned_default_flags(scx_sched, SchedMode::LowLatency)),
        powersave_mode: Some(owned_default_flags(scx_sched, SchedMode::PowerSave)),
    }
}

/// The built-in fallback configuration, used when no file is found.
pub fn get_default_config() -> (r: Config)
    ensures
        is_default_config(r),
{
    let mut scheds: Vec<(String, Sched)> = Vec::new();
    scheds.push(
        ("scx_bpfland".to_owned(), get_default_sched_for_config(&SupportedSched::Bpfland)),
    );
    scheds.push(("scx_rusty".to_owned(), get_default_sched_for_config(&SupportedSched::Rusty)));
    scheds.push(("scx_lavd".to_owned(), get_default_sched_for_config(&SupportedSched::Lavd)));
    Config { default_sched: None, default_mode: Some(SchedMode::Auto), scheds }
}

/// The flags to launch the given scheduler with in the given mode: the
/// configured override where one is present — an explicit empty list is a
/// final answer — and the built-in default otherwise. Total: never fails.
pub fn get_scx_flags_for_mode(
    config: &Config,
    scx_sched: &SupportedSched,
    sched_mode: SchedMode,
) -> (r: Vec<String>)
    ensures
        r.deep_view() == spec_resolve(*config, *scx_sched, sched_mode),
{
    let name = get_name_from_scx(scx_sched);
    match find_in(&config.scheds, name) {
        Some(sched_config) => {
            match extract_scx_flags_from_config(sched_config, &sched_mode) {
                Some(scx_flags) => scx_flags,
                None => owned_default_flags(scx_sched, sched_mode),
            }
        },
        None => owned_default_flags(scx_sched, sched_mode),
    }
}

/// Two configurations are equivalent when they choose the same defaults and
/// store an equivalent record under every name: the equality of the data
/// model, indifferent to the order records are stored in.
pub open spec fn config_equiv(a: Config, b: Config) -> bool {
    &&& a.default_sched == b.default_sched
    &&& a.default_mode == b.default_mode
    &&& forall|k: Seq<char>|
        opt_sched_model(#[trigger] find_sched(a.scheds@, k)) == opt_sched_model(
            find_sched(b.scheds@, k),
        )
}

pub proof fn lemma_find_sched_some_key(entries: Seq<(String, Sched)>, name: Seq<char>)
    requires
        find_sched(entries, name) is Some,
    ensures
        exists|j: int| 0 <= j < entries.len() && entries[j].0@ == name,
    decreases entries.len(),
{
    if entries.len() > 0 {
        if entries[0].0@ == name {
            assert(entries[0].0@ == name);
        } else {
            lemma_find_sched_some_key(entries.drop_first(), name);
            let j = choose|j: int|
                0 <= j < entries.drop_first().len() && entries.drop_first()[j].0@ == name;
            assert(entries[j + 1].0@ == name);
        }
    }
}

/// True exactly when the two flag lists hold the same tokens in order.
fn flags_eq(x: &Vec<String>, y: &Vec<String>) -> (r: bool)
    ensures
        r == (x.deep_view() == y.deep_view()),
{
    proof {
        assert(x.deep_view().len() == x@.len());
        assert(y.deep_view().len() == y@.len());
    }
    if x.len() != y.len() {
        return false;
    }
    let mut i: usize = 0;
    while i < x.len()
        invariant
            i <= x@.len(),
            x@.len() == y@.len(),
            forall|j: int| 0 <= j < i ==> x@[j]@ == y@[j]@,
        decreases x@.len() - i,
    {
        if !str_eq(x[i].as_str(), y[i].as_str()) {
            proof {
                assert(x.deep_view()[i as int] == x@[i as int]@);
                assert(y.deep_view()[i as int] == y@[i as int]@);
            }
            return false;
        }
        i += 1;
    }
    proof {
        assert(x.deep_view() =~= y.deep_view());
    }
    true
}

/// True exactly when the two optional flag lists agree: both absent, or
/// both present and equal.
fn opt_flags_eq(x: &Option<Vec<String>>, y: &Option<Vec<String>>) -> (r: bool)
    ensures
        r == (x.deep_view() == y.deep_view()),
{
    match x {
        None => match y {
            None => true,
            Some(_) => false,
        },
        Some(a) => match y {
            None => false,
            Some(b) => flags_eq(a, b),
        },
    }
}

/// True exactly when the two records agree on all four mode fields.
pub fn sched_eq(x: &Sched, y: &Sched) -> (r: bool)
    ensures
        r == (x@ == y@),
{
    opt_flags_eq(&x.auto_mode, &y.auto_mode) && opt_flags_eq(&x.gaming_mode, &y.gaming_mode)
        && opt_flags_eq(&x.lowlatency_mode, &y.lowlatency_mode) && opt_flags_eq(
        &x.powersave_mode,
        &y.powersave_mode,
    )
}

/// True exactly when, for every name stored in `a`, the two configurations
/// store an equivalent record.
fn scheds_contained(a: &Vec<(String, Sched)>, b: &Vec<(String, Sched)>) -> (r: bool)
    ensures
        r == forall|j: int|
            0 <= j < a@.len() ==> opt_sched_model(find_sched(b@, #[trigger] a@[j].0@))
                == opt_sched_model(find_sched(a@, a@[j].0@)),
{
    let mut j: usize = 0;
    while j < a.len()
        invariant
            j <= a@.len(),
            forall|jj: int|
                0 <= jj < j ==> opt_sched_model(find_sched(b@, #[trigger] a@[jj].0@))
                    == opt_sched_model(find_sched(a@, a@[jj].0@)),
        decreases a@.len() - j,
    {
        let name = a[j].0.as_str();
        let fa = find_in(a, name);
        let fb = find_in(b, name);
        let same = match fa {
            None => match fb {
                None => true,
                Some(_) => false,
            },
            Some(sa) => match fb {
                None => false,
                Some(sb) => sched_eq(sa, sb),
            },
        };
        if !same {
            return false;
        }
        j += 1;
    }
    true
}

/// True exactly when the two configurations are equivalent: same chosen
/// defaults, and an equivalent record under every name, whatever order the
/// records are stored in.
pub fn config_eq(a: &Config, b: &Config) -> (r: bool)
    ensures
        r == config_equiv(*a, *b),
{
    let ds_eq = match &a.default_sched {
        None => matches!(&b.default_sched, None),
        Some(u) => match &b.default_sched {
            None => false,
            Some(w) => *u == *w,
        },
    };
    if !ds_eq {
        return false;
    }
    let dm_eq = match &a.default_mode {
        None => matches!(&b.default_mode, None),
        Some(u) => match &b.default_mode {
            None => false,
            Some(w) => *u == *w,
        },
    };
    if !dm_eq {
        return false;
    }
    if !scheds_contained(&a.scheds, &b.scheds) {
        return false;
    }
    if !scheds_contained(&b.scheds, &a.scheds) {
        return false;
    }
    proof {
        assert forall|k: Seq<char>|
            opt_sched_model(#[trigger] find_sched(a.scheds@, k)) == opt_sched_model(
                find_sched(b.scheds@, k),
            ) by {
            if find_sched(a.scheds@, k) is Some {
                lemma_find_sched_some_key(a.scheds@, k);
                let j = choose|j: int| 0 <= j < a.scheds@.len() && a.scheds@[j].0@ == k;
                assert(opt_sched_model(find_sched(b.scheds@, a.scheds@[j].0@)) == opt_sched_model(
                    find_sched(a.scheds@, a.scheds@[j].0@),
                ));
            } else if find_sched(b.scheds@, k) is Some {
                lemma_find_sched_some_key(b.scheds@, k);
                let j = choose|j: int| 0 <= j < b.scheds@.len() && b.scheds@[j].0@ == k;
                assert(opt_sched_model(find_sched(a.scheds@, b.scheds@[j].0@)) == opt_sched_model(
                    find_sched(b.scheds@, b.scheds@[j].0@),
                ));
            }
        };
    }
    true
}

/// The flag lists a TOML value holds, when it is an array of strings.
pub open spec fn model_flags(m: TomlModel) -> Option<Seq<Seq<char>>> {
    match m {
        TomlModel::Arr(items) => if forall|i: int| 0 <= i < items.len() ==> items[i] is Str {
            Some(items.map_values(|x: TomlModel| x->Str_0))
        } else {
            None
        },
        _ => None,
    }
}

/// A mode field of a record table: outer `None` when the field is present
/// but not an array of strings (a schema error); inner `None` when absent.
pub open spec fn field_flags(tm: Map<Seq<char>, TomlModel>, key: Seq<char>) -> Option<
    Option<Seq<Seq<char>>>,
> {
    if tm.contains_key(key) {
        match model_flags(tm[key]) {
            Some(f) => Some(Some(f)),
            None => None,
        }
    } else {
        Some(None)
    }
}

/// Every mode field of a record table matches the schema.
pub open spec fn sched_table_ok(tm: Map<Seq<char>, TomlModel>) -> bool {
    &&& field_flags(tm, "auto_mode"@) is Some
    &&& field_flags(tm, "gaming_mode"@) is Some
    &&& field_flags(tm, "lowlatency_mode"@) is Some
    &&& field_flags(tm, "powersave_mode"@) is Some
}

/// The record a well-formed record table denotes.
pub open spec fn extract_sched_model(tm: Map<Seq<char>, TomlModel>) -> SchedModel {
    SchedModel {
        auto_mode: field_flags(tm, "auto_mode"@)->Some_0,
        gaming_mode: field_flags(tm, "gaming_mode"@)->Some_0,
        lowlatency_mode: field_flags(tm, "lowlatency_mode"@)->Some_0,
        powersave_mode: field_flags(tm, "powersave_mode"@)->Some_0,
    }
}

/// The `default_sched` entry of a document matches the schema: absent, or
/// the name of a known scheduler.
pub open spec fn doc_default_sched_ok(doc: Map<Seq<char>, TomlModel>) -> bool {
    doc.contains_key("default_sched"@) ==> doc["default_sched"@] is Str && spec_sched_of_name(
        doc["default_sched"@]->Str_0,
    ) is Some
}

/// The scheduler a document chooses as default, if any.
pub open spec fn doc_default_sched(doc: Map<Seq<char>, TomlModel>) -> Option<SupportedSched> {
    if doc.contains_key("default_sched"@) {
        spec_sched_of_name(doc["default_sched"@]->Str_0)
    } else {
        None
    }
}

/// The `default_mode` entry of a document matches the schema: absent, or
/// the name of a mode.
pub open spec fn doc_default_mode_ok(doc: Map<Seq<char>, TomlModel>) -> bool {
    doc.contains_key("default_mode"@) ==> doc["default_mode"@] is Str && spec_mode_of_name(
        doc["default_mode"@]->Str_0,
    ) is Some
}

/// The mode a document chooses as default, if any.
pub open spec fn doc_default_mode(doc: Map<Seq<char>, TomlModel>) -> Option<SchedMode> {
    if doc.contains_key("default_mode"@) {
        spec_mode_of_name(doc["default_mode"@]->Str_0)
    } else {
        None
    }
}

/// The `scheds` table of a document, or an empty one when absent.
pub open spec fn doc_scheds(doc: Map<Seq<char>, TomlModel>) -> Map<Seq<char>, TomlModel> {
    if doc.contains_key("scheds"@) && doc["scheds"@] is Tbl {
        doc["scheds"@]->Tbl_0
    } else {
        Map::empty()
    }
}

/// The `scheds` entry of a document matches the schema: absent, or a table
/// of record tables.
pub open spec fn doc_scheds_ok(doc: Map<Seq<char>, TomlModel>) -> bool {
    doc.contains_key("scheds"@) ==> {
        &&& doc["scheds"@] is Tbl
        &&& forall|k: Seq<char>| #[trigger]
            doc_scheds(doc).contains_key(k) ==> doc_scheds(doc)[k] is Tbl && sched_table_ok(
                doc_scheds(doc)[k]->Tbl_0,
            )
    }
}

/// The whole document matches the configuration schema.
pub open spec fn doc_ok(doc: Map<Seq<char>, TomlModel>) -> bool {
    &&& doc_default_sched_ok(doc)
    &&& doc_default_mode_ok(doc)
    &&& doc_scheds_ok(doc)
}

/// The record a document holds for a scheduler name, if any.
pub open spec fn doc_sched_lookup(doc: Map<Seq<char>, TomlModel>, k: Seq<char>) -> Option<
    SchedModel,
> {
    if doc_scheds(doc).contains_key(k) {
        Some(extract_sched_model(doc_scheds(doc)[k]->Tbl_0))
    } else {
        None
    }
}

/// The flag list a TOML value holds, when it is an array of strings.
fn extract_flags(v: &toml::Value) -> (r: Option<Vec<String>>)
    ensures
        r is Some <==> model_flags(value_model(*v)) is Some,
        r matches Some(fl) ==> Some(fl.deep_view()) == model_flags(value_model(*v)),
{
    match value_as_array(v) {
        None => None,
        Some(arr) => {
            let ghost items = models_of(arr@);
            let mut out: Vec<String> = Vec::new();
            let mut i: usize = 0;
            while i < arr.len()
                invariant
                    i <= arr@.len(),
                    items == models_of(arr@),
                    value_model(*v) == TomlModel::Arr(items),
                    out@.len() == i,
                    forall|j: int| 0 <= j < i ==> items[j] is Str && out@[j]@ == items[j]->Str_0,
                decreases arr@.len() - i,
            {
                proof {
                    assert(items[i as int] == value_model(arr@[i as int]));
                }
                match value_as_str(&arr[i]) {
                    None => {
                        return None;
                    },
                    Some(s) => {
                        out.push(s.to_owned());
                    },
                }
                i += 1;
            }
            proof {
                assert(out.deep_view() =~= items.map_values(|x: TomlModel| x->Str_0));
            }
            Some(out)
        },
    }
}

/// A mode field of a record table: `None` on a schema error, otherwise the
/// field's optional flag list.
fn get_field_flags(t: &toml::map::Map<String, toml::Value>, key: &str) -> (r: Option<
    Option<Vec<String>>,
>)
    ensures
        r is Some <==> field_flags(table_model(*t), key@) is Some,
        r matches Some(of) ==> Some(of.deep_view()) == field_flags(table_model(*t), key@),
{
    match table_get(t, key) {
        None => Some(None),
        Some(v) => match extract_flags(v) {
            None => None,
            Some(fl) => Some(Some(fl)),
        },
    }
}

/// The record a record table denotes, or `None` on a schema error.
fn extract_sched_table(t: &toml::map::Map<String, toml::Value>) -> (r: Option<Sched>)
    ensures
        r is Some <==> sched_table_ok(table_model(*t)),
        r matches Some(s) ==> s@ == extract_sched_model(table_model(*t)),
{
    let auto_mode = match get_field_flags(t, "auto_mode") {
        None => return None,
        Some(x) => x,
    };
    let gaming_mode = match get_field_flags(t, "gaming_mode") {
        None => return None,
        Some(x) => x,
    };
    let lowlatency_mode = match get_field_flags(t, "lowlatency_mode") {
        None => return None,
        Some(x) => x,
    };
    let powersave_mode = match get_field_flags(t, "powersave_mode") {
        None => return None,
        Some(x) => x,
    };
    Some(Sched { auto_mode, gaming_mode, lowlatency_mode, powersave_mode })
}

/// The configuration a whole document denotes, or a parse error where it
/// does not match the schema.
fn extract_config(t: &toml::map::Map<String, toml::Value>) -> (r: Result<Config, ConfigError>)
    ensures
        r is Ok <==> doc_ok(table_model(*t)),
        r matches Err(e) ==> e == ConfigError::Parse,
        r matches Ok(c) ==> {
            &&& c.default_sched == doc_default_sched(table_model(*t))
            &&& c.default_mode == doc_default_mode(table_model(*t))
            &&& forall|k: Seq<char>|
                opt_sched_model(#[trigger] find_sched(c.scheds@, k)) == doc_sched_lookup(
                    table_model(*t),
                    k,
                )
        },
{
    let ghost doc = table_model(*t);
    let default_sched: Option<SupportedSched> = match table_get(t, "default_sched") {
        None => None,
        Some(v) => match value_as_str(v) {
            None => return Err(ConfigError::Parse),
            Some(s) => match sched_from_name(s) {
                None => return Err(ConfigError::Parse),
                Some(x) => Some(x),
            },
        },
    };
    let default_mode: Option<SchedMode> = match table_get(t, "default_mode") {
        None => None,
        Some(v) => match value_as_str(v) {
            None => return Err(ConfigError::Parse),
            Some(s) => match mode_from_name(s) {
                None => return Err(ConfigError::Parse),
                Some(x) => Some(x),
            },
        },
    };
    let mut scheds: Vec<(String, Sched)> = Vec::new();
    match table_get(t, "scheds") {
        None => {
            proof {
                assert(forall|k: Seq<char>|
                    opt_sched_model(#[trigger] find_sched(scheds@, k)) == doc_sched_lookup(doc, k))
                    by {
                    assert(scheds@.len() == 0);
                };
            }
        },
        Some(v) => match value_as_table(v) {
            None => return Err(ConfigError::Parse),
            Some(stbl) => {
                let ghost sm = table_model(*stbl);
                let entries = table_entries(stbl);
                let mut i: usize = 0;
                while i < entries.len()
                    invariant
                        i <= entries@.len(),
                        doc == table_model(*t),
                        doc.contains_key("scheds"@),
                        doc["scheds"@] == TomlModel::Tbl(sm),
                        forall|jj: int|
                            0 <= jj < entries@.len() ==> #[trigger] sm.contains_key(
                                entries@[jj].0@,
                            ) && value_model(entries@[jj].1) == sm[entries@[jj].0@],
                        forall|jj: int, kk: int|
                            0 <= jj < kk < entries@.len() ==> entries@[jj].0@ != entries@[kk].0@,
                        forall|k: Seq<char>| #[trigger]
                            sm.contains_key(k) ==> exists|jj: int|
                                0 <= jj < entries@.len() && entries@[jj].0@ == k,
                        scheds@.len() == i,
                        forall|j: int| 0 <= j < i ==> scheds@[j].0@ == entries@[j].0@,
                        forall|j: int|
                            0 <= j < i ==> (#[trigger] sm[entries@[j].0@]) is Tbl && sched_table_ok(
                                sm[entries@[j].0@]->Tbl_0,
                            ) && scheds@[j].1@ == extract_sched_model(sm[entries@[j].0@]->Tbl_0),
                    decreases entries@.len() - i,
                {
                    let ghost key = entries@[i as int].0@;
                    proof {
                        assert(sm.contains_key(key) && value_model(entries@[i as int].1)
                            == sm[key]);
                        assert(doc_scheds(doc) == sm);
                    }
                    let sub = match value_as_table(&entries[i].1) {
                        None => {
                            proof {
                                assert(!(sm[key] is Tbl));
                                assert(!doc_scheds_ok(doc));
                            }
                            return Err(ConfigError::Parse);
                        },
                        Some(x) => x,
                    };
                    let sched = match extract_sched_table(sub) {
                        None => {
                            proof {
                                assert(sm[key]->Tbl_0 == table_model(*sub));
                                assert(!doc_scheds_ok(doc));
                            }
                            return Err(ConfigError::Parse);
                        },
                        Some(x) => x,
                    };
                    proof {
                        assert(sm[key] is Tbl && sm[key]->Tbl_0 == table_model(*sub));
                        assert(sched@ == extract_sched_model(sm[key]->Tbl_0));
                    }
                    scheds.push((entries[i].0.clone(), sched));
                    i += 1;
                }
                proof {
                    assert forall|k: Seq<char>|
                        opt_sched_model(#[trigger] find_sched(scheds@, k)) == doc_sched_lookup(
                            doc,
                            k,
                        ) by {
                        if sm.contains_key(k) {
                            let jj = choose|jj: int|
                                0 <= jj < entries@.len() && entries@[jj].0@ == k;
                            lemma_find_sched_hit(scheds@, k, jj);
                        } else {
                            assert(forall|j: int|
                                0 <= j < scheds@.len() ==> #[trigger] scheds@[j].0@ != k);
                            lemma_find_sched_miss(scheds@, k);
                        }
                    };
                }
            },
        },
    }
    Ok(Config { default_sched, default_mode, scheds })
}

/// The configuration a text denotes.
///
/// Empty text is rejected as [`ConfigError::EmptyFile`]; text that is not
/// valid TOML, or that does not match the schema, as
/// [`ConfigError::Parse`]. Every other text yields exactly the
/// configuration it spells out.
pub fn parse_config_content(file_content: &str) -> (r: Result<Config, ConfigError>)
    ensures
        r matches Err(e) ==> (e == ConfigError::EmptyFile || e == ConfigError::Parse),
        (r matches Err(e) && e == ConfigError::EmptyFile) <==> file_content@.len() == 0,
        file_content@.len() > 0 ==> ((r is Ok) <==> (toml_table_of(file_content@) matches Some(doc)
            && doc_ok(doc))),
        r matches Ok(c) ==> {
            let doc = toml_table_of(file_content@)->Some_0;
            &&& toml_table_of(file_content@) is Some
            &&& doc_ok(doc)
            &&& c.default_sched == doc_default_sched(doc)
            &&& c.default_mode == doc_default_mode(doc)
            &&& forall|k: Seq<char>|
                opt_sched_model(#[trigger] find_sched(c.scheds@, k)) == doc_sched_lookup(doc, k)
        },
{
    if file_content.is_empty() {
        return Err(ConfigError::EmptyFile);
    }
    match parse_toml_table(file_content) {
        None => Err(ConfigError::Parse),
        Some(t) => extract_config(&t),
    }
}

/// The fixed locations searched for a configuration file, first one first.
pub open spec fn spec_primary_config_path() -> Seq<char> {
    "/etc/scx_loader/config.toml"@
}

/// The location searched when the first holds no file.
pub open spec fn spec_fallback_config_path() -> Seq<char> {
    "/etc/scx_loader.toml"@
}

/// Relies on `std::path::Path::exists`: reports whether a path exists on
/// disk. The outcome depends on the filesystem, so nothing is promised.
#[verifier::external_body]
fn path_exists(path: &str) -> bool {
    std::path::Path::new(path).exists()
}

/// Which search location wins, given which ones exist: the first, in order.
pub fn select_config_path(primary_exists: bool, fallback_exists: bool) -> (r: Option<
    &'static str,
>)
    ensures
        r is Some <==> (primary_exists || fallback_exists),
        primary_exists ==> (r matches Some(p) && p@ == spec_primary_config_path()),
        (!primary_exists && fallback_exists) ==> (r matches Some(p) && p@
            == spec_fallback_config_path()),
{
    if primary_exists {
        Some("/etc/scx_loader/config.toml")
    } else if fallback_exists {
        Some("/etc/scx_loader.toml")
    } else {
        None
    }
}

/// First existing configuration path on this system, in search order, or
/// [`ConfigError::NotFound`] when none of the known locations exists.
pub fn get_config_path() -> (r: Result<String, ConfigError>)
    ensures
        r matches Ok(p) ==> p@ == spec_primary_config_path() || p@ == spec_fallback_config_path(),
        r matches Err(e) ==> e == ConfigError::NotFound,
{
    let primary = path_exists("/etc/scx_loader/config.toml");
    let fallback = path_exists("/etc/scx_loader.toml");
    match select_config_path(primary, fallback) {
        Some(p) => Ok(p.to_owned()),
        None => Err(ConfigError::NotFound),
    }
}

} // verus!
