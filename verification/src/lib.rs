//! Orchestration core of a static-analysis engine for Lua source files.
//!
//! Given a pre-parsed syntax tree of one file, the engine runs a fixed,
//! ordered registry of built-in checks plus user-configured scripted
//! plugins, resolves a severity for every finding from user overrides or
//! compiled defaults, and finally drops findings that inline suppression
//! directives in the file ask to silence.

use vstd::prelude::*;
use vstd::string::StringExecFns;

pub mod ast;
pub mod laws;
pub mod lint_filtering;
pub mod plugins;
pub mod registry;
pub mod rules;
pub mod text;

use crate::ast::Ast;
use crate::ast::AstView;
use crate::lint_filtering::filter_diagnostics;
use crate::lint_filtering::spec_filter_output;
use crate::plugins::bridge_for;
use crate::plugins::full_name_for;
use crate::plugins::spec_full_name;
use crate::plugins::LoadedPlugin;
use crate::plugins::Plugin;
use crate::plugins::PluginConfig;
use crate::plugins::PluginConfigView;
use crate::registry::build_check;
use crate::registry::check_name;
use crate::registry::default_severity;
use crate::registry::default_severity_of;
use crate::registry::name_of;
use crate::registry::registry_kinds;
use crate::registry::run_check;
use crate::registry::spec_base_registry;
use crate::registry::spec_build_check;
use crate::registry::spec_check_pass;
use crate::registry::spec_registry;
use crate::registry::BuiltinCheck;
use crate::registry::BuiltinCheckView;
use crate::registry::CheckKind;
use crate::registry::ConfigEntry;
use crate::registry::ConfigEntryView;
use crate::registry::SettingsValue;
use crate::registry::SettingsValueView;
use crate::rules::AstContext;
use crate::rules::Context;
use crate::rules::Diagnostic;
use crate::rules::DiagnosticView;
use crate::rules::Label;
use crate::rules::StandardLibrary;
use crate::text::spec_contains_str;
use crate::text::str_eq;

verus! {

pub use crate::rules::Severity;

/// A user-facing severity override from the configuration file.
///
/// Maps one-to-one onto [`Severity`]: `Deny` escalates to `Error`,
/// `Warn` to `Warning`, `Allow` silences.
#[derive(Clone, Copy, Debug, PartialEq, Eq, Structural)]
pub enum RuleVariation {
    Allow,
    Deny,
    Warn,
}

/// What a [`RuleVariation`] means as a severity.
pub open spec fn variation_severity(v: RuleVariation) -> Severity {
    match v {
        RuleVariation::Allow => Severity::Allow,
        RuleVariation::Deny => Severity::Error,
        RuleVariation::Warn => Severity::Warning,
    }
}

impl RuleVariation {
    pub fn to_severity(self) -> (r: Severity)
        ensures
            r == variation_severity(self),
    {
        match self {
            RuleVariation::Allow => Severity::Allow,
            RuleVariation::Deny => Severity::Error,
            RuleVariation::Warn => Severity::Warning,
        }
    }
}

/// Which source the optional Roblox standard-library profile is taken
/// from: a floating (regularly refreshed) copy or a pinned one.
#[derive(Clone, Copy, Debug, PartialEq, Eq, Structural)]
pub enum RobloxStdSource {
    Floating,
    Pinned,
}

impl Default for RobloxStdSource {
    /// The more permissive variant is the default.
    fn default() -> (r: Self)
        ensures
            r == RobloxStdSource::Floating,
    {
        RobloxStdSource::Floating
    }
}

/// Why constructing an engine failed. Construction is fail-fast: the
/// first failing unit, in registry order (the plugin list comes after
/// every built-in row), is the one reported, and no partial engine is
/// ever returned.
#[derive(Debug)]
pub enum CheckerError {
    /// A check's settings entry would not deserialize into its settings
    /// type.
    ConfigDeserializeError { name: String, problem: String },
    /// A plugin failed to load or sandbox-initialize.
    InvalidPlugin { problem: String },
    /// A check rejected its already deserialized settings.
    RuleNewError { name: String, problem: String },
}

/// Mathematical image of a [`CheckerError`].
pub enum CheckerErrorView {
    ConfigDeserializeError { name: Seq<char>, problem: Seq<char> },
    InvalidPlugin { problem: Seq<char> },
    RuleNewError { name: Seq<char>, problem: Seq<char> },
}

impl View for CheckerError {
    type V = CheckerErrorView;

    open spec fn view(&self) -> CheckerErrorView {
        match self {
            CheckerError::ConfigDeserializeError { name, problem } => {
                CheckerErrorView::ConfigDeserializeError { name: name@, problem: problem@ }
            },
            CheckerError::InvalidPlugin { problem } => {
                CheckerErrorView::InvalidPlugin { problem: problem@ }
            },
            CheckerError::RuleNewError { name, problem } => {
                CheckerErrorView::RuleNewError { name: name@, problem: problem@ }
            },
        }
    }
}

/// The human-readable description of a construction failure.
pub open spec fn spec_error_message(e: CheckerErrorView) -> Seq<char> {
    match e {
        CheckerErrorView::ConfigDeserializeError { name, problem } => {
            "["@ + name + "] Configuration was incorrectly formatted: "@ + problem
        },
        CheckerErrorView::InvalidPlugin { problem } => "Couldn't load plugin: "@ + problem,
        CheckerErrorView::RuleNewError { name, problem } => "["@ + name + "] "@ + problem,
    }
}

impl CheckerError {
    /// Renders the failure for the user, naming the failing unit.
    pub fn to_message(&self) -> (r: String)
        ensures
            r@ == spec_error_message(self@),
    {
        match self {
            CheckerError::ConfigDeserializeError { name, problem } => {
                "[".to_owned().concat(name.as_str()).concat(
                    "] Configuration was incorrectly formatted: ",
                ).concat(problem.as_str())
            },
            CheckerError::InvalidPlugin { problem } => {
                "Couldn't load plugin: ".to_owned().concat(problem.as_str())
            },
            CheckerError::RuleNewError { name, problem } => {
                "[".to_owned().concat(name.as_str()).concat("] ").concat(problem.as_str())
            },
        }
    }
}

/// One name-to-variation severity override from the configuration.
#[derive(Debug)]
pub struct RuleOverride {
    pub name: String,
    pub variation: RuleVariation,
}

/// Mathematical image of a [`RuleOverride`].
pub struct RuleOverrideView {
    pub name: Seq<char>,
    pub variation: RuleVariation,
}

impl View for RuleOverride {
    type V = RuleOverrideView;

    open spec fn view(&self) -> RuleOverrideView {
        RuleOverrideView { name: self.name@, variation: self.variation }
    }
}

impl DeepView for RuleOverride {
    type V = RuleOverrideView;

    open spec fn deep_view(&self) -> RuleOverrideView {
        self@
    }
}

/// The configuration bundle one engine is constructed from.
#[derive(Debug)]
pub struct CheckerConfig {
    /// Per-check settings, keyed by registry name; each entry is
    /// consumed by its check during construction.
    pub config: Vec<ConfigEntry>,
    /// The declared plugins, in declaration order.
    pub plugins: Vec<PluginConfig>,
    /// Severity overrides, keyed by check or plugin full name.
    pub rules: Vec<RuleOverride>,
    /// The selected standard-library profile's name; empty selects
    /// none.
    pub std: String,
    pub roblox_std_source: RobloxStdSource,
}

/// Mathematical image of a [`CheckerConfig`].
pub struct CheckerConfigView {
    pub config: Seq<ConfigEntryView>,
    pub plugins: Seq<PluginConfigView>,
    pub rules: Seq<RuleOverrideView>,
    pub std: Seq<char>,
    pub roblox_std_source: RobloxStdSource,
}

impl View for CheckerConfig {
    type V = CheckerConfigView;

    open spec fn view(&self) -> CheckerConfigView {
        CheckerConfigView {
            config: self.config.deep_view(),
            plugins: self.plugins.deep_view(),
            rules: self.rules.deep_view(),
            std: self.std@,
            roblox_std_source: self.roblox_std_source,
        }
    }
}

impl Default for CheckerConfig {
    /// An empty configuration: no settings, no plugins, no overrides,
    /// no standard-library profile.
    fn default() -> (r: Self)
        ensures
            r@.config.len() == 0,
            r@.plugins.len() == 0,
            r@.rules.len() == 0,
            r@.std.len() == 0,
            r@.roblox_std_source == RobloxStdSource::Floating,
    {
        let r = CheckerConfig {
            config: Vec::new(),
            plugins: Vec::new(),
            rules: Vec::new(),
            std: String::new(),
            roblox_std_source: RobloxStdSource::Floating,
        };
        proof {
            assert(r@.config =~= Seq::<ConfigEntryView>::empty());
            assert(r@.plugins =~= Seq::<PluginConfigView>::empty());
            assert(r@.rules =~= Seq::<RuleOverrideView>::empty());
        }
        r
    }
}

impl CheckerConfig {
    /// Resolves every plugin source against a base directory, so that
    /// plugin paths in a configuration file are read relative to that
    /// file.
    pub fn absolutize_paths(&mut self, base: &str)
        ensures
            final(self).config == old(self).config,
            final(self).rules == old(self).rules,
            final(self).std == old(self).std,
            final(self).roblox_std_source == old(self).roblox_std_source,
            final(self)@.plugins.len() == old(self)@.plugins.len(),
            forall|i: int|
                0 <= i < old(self)@.plugins.len() ==> #[trigger] final(self)@.plugins[i]
                    == (PluginConfigView {
                    source: crate::text::spec_join_path(base@, old(self)@.plugins[i].source),
                    name: old(self)@.plugins[i].name,
                }),
    {
        let mut resolved: Vec<PluginConfig> = Vec::new();
        proof {
            assert(resolved.deep_view() =~= Seq::<PluginConfigView>::empty());
        }
        let mut i: usize = 0;
        while i < self.plugins.len()
            invariant
                0 <= i <= self.plugins@.len(),
                self.plugins.deep_view().len() == self.plugins@.len(),
                resolved.deep_view().len() == i,
                forall|j: int|
                    0 <= j < i ==> #[trigger] resolved.deep_view()[j] == (PluginConfigView {
                        source: crate::text::spec_join_path(
                            base@,
                            self.plugins.deep_view()[j].source,
                        ),
                        name: self.plugins.deep_view()[j].name,
                    }),
            decreases self.plugins@.len() - i,
        {
            let ghost prev = resolved.deep_view();
            let p = &self.plugins[i];
            let joined = PluginConfig {
                source: crate::text::join_path(base, p.source.as_str()),
                name: p.name.clone(),
            };
            proof {
                assert(joined@ == (PluginConfigView {
                    source: crate::text::spec_join_path(
                        base@,
                        self.plugins.deep_view()[i as int].source,
                    ),
                    name: self.plugins.deep_view()[i as int].name,
                }));
            }
            resolved.push(joined);
            proof {
                assert(resolved.deep_view() =~= prev.push(joined@));
            }
            i += 1;
        }
        self.plugins = resolved;
    }
}

/// The final output unit: one finding together with its fully resolved
/// severity.
#[derive(Debug)]
pub struct CheckerDiagnostic {
    pub diagnostic: Diagnostic,
    pub severity: Severity,
}

/// Mathematical image of a [`CheckerDiagnostic`].
pub struct CheckerDiagnosticView {
    pub diagnostic: DiagnosticView,
    pub severity: Severity,
}

impl View for CheckerDiagnostic {
    type V = CheckerDiagnosticView;

    open spec fn view(&self) -> CheckerDiagnosticView {
        CheckerDiagnosticView { diagnostic: self.diagnostic@, severity: self.severity }
    }
}

impl DeepView for CheckerDiagnostic {
    type V = CheckerDiagnosticView;

    open spec fn deep_view(&self) -> CheckerDiagnosticView {
        self@
    }
}

/// Tags every finding of one reporting unit with that unit's resolved
/// severity.
pub open spec fn spec_tag(ds: Seq<DiagnosticView>, severity: Severity) -> Seq<
    CheckerDiagnosticView,
> {
    ds.map(|i: int, d: DiagnosticView| CheckerDiagnosticView { diagnostic: d, severity })
}

/// The first override for a name, in override order.
pub open spec fn spec_lookup_variation(rules: Seq<RuleOverrideView>, name: Seq<char>) -> Option<
    RuleVariation,
>
    decreases rules.len(),
{
    if rules.len() == 0 {
        None
    } else if rules[0].name == name {
        Some(rules[0].variation)
    } else {
        spec_lookup_variation(rules.drop_first(), name)
    }
}

/// A reporting unit's severity: its override when the configuration
/// carries one, else its compiled-in (or, for a plugin, declared)
/// default.
pub open spec fn spec_resolved_severity(
    rules: Seq<RuleOverrideView>,
    name: Seq<char>,
    default: Severity,
) -> Severity {
    match spec_lookup_variation(rules, name) {
        Some(v) => variation_severity(v),
        None => default,
    }
}

/// Looks a unit's severity up in the overrides.
pub fn resolve_severity(rules: &Vec<RuleOverride>, name: &str, default: Severity) -> (r: Severity)
    ensures
        r == spec_resolved_severity(rules.deep_view(), name@, default),
{
    let ghost rules0 = rules.deep_view();
    proof {
        assert(rules0.skip(0) =~= rules0);
    }
    let mut i: usize = 0;
    while i < rules.len()
        invariant
            0 <= i <= rules@.len(),
            rules0 == rules.deep_view(),
            rules0.len() == rules@.len(),
            spec_lookup_variation(rules0, name@) == spec_lookup_variation(
                rules0.skip(i as int),
                name@,
            ),
        decreases rules@.len() - i,
    {
        proof {
            assert(rules0.skip(i as int)[0] == rules0[i as int]);
            assert(rules0.skip(i as int).drop_first() =~= rules0.skip(i + 1));
        }
        if str_eq(rules[i].name.as_str(), name) {
            return rules[i].variation.to_severity();
        }
        i += 1;
    }
    proof {
        assert(rules0.skip(rules@.len() as int) =~= Seq::<RuleOverrideView>::empty());
    }
    default
}

/// Whether a name is one of the base registry's check names.
pub open spec fn spec_rule_exists(name: Seq<char>) -> bool {
    spec_contains_str(spec_base_registry().map(|i: int, k: CheckKind| name_of(k)), name)
}

/// Whether a built-in check of the base registry goes by this name.
pub fn rule_exists(name: &str) -> (r: bool)
    ensures
        r == spec_rule_exists(name@),
{
    let kinds = registry_kinds(false);
    let ghost names = spec_base_registry().map(|i: int, k: CheckKind| name_of(k));
    let mut i: usize = 0;
    while i < kinds.len()
        invariant
            0 <= i <= kinds@.len(),
            kinds@ == spec_registry(false),
            kinds@.len() == names.len(),
            names == spec_base_registry().map(|i: int, k: CheckKind| name_of(k)),
            forall|j: int| 0 <= j < i ==> names[j] != name@,
        decreases kinds@.len() - i,
    {
        proof {
            assert(spec_registry(false) =~= spec_base_registry());
            assert(names[i as int] == name_of(kinds@[i as int]));
        }
        if str_eq(check_name(kinds[i]), name) {
            proof {
                assert(names[i as int] == name@);
            }
            return true;
        }
        i += 1;
    }
    false
}

/// Removing a name's first settings entry: the entry's value, if any,
/// and the map without it.
pub open spec fn spec_remove_entry(entries: Seq<ConfigEntryView>, name: Seq<char>) -> (
    Option<SettingsValueView>,
    Seq<ConfigEntryView>,
)
    decreases entries.len(),
{
    if entries.len() == 0 {
        (None, entries)
    } else if entries[0].name == name {
        (Some(entries[0].settings), entries.drop_first())
    } else {
        let rest = spec_remove_entry(entries.drop_first(), name);
        (rest.0, seq![entries[0]] + rest.1)
    }
}

proof fn lemma_remove_entry_found(entries: Seq<ConfigEntryView>, name: Seq<char>, idx: int)
    requires
        0 <= idx < entries.len(),
        entries[idx].name == name,
        forall|j: int| 0 <= j < idx ==> entries[j].name != name,
    ensures
        spec_remove_entry(entries, name) == (
            Some(entries[idx].settings),
            entries.subrange(0, idx) + entries.subrange(idx + 1, entries.len() as int),
        ),
    decreases idx,
{
    if idx == 0 {
        assert(entries.drop_first() =~= entries.subrange(0, 0) + entries.subrange(
            1,
            entries.len() as int,
        ));
    } else {
        let tail = entries.drop_first();
        lemma_remove_entry_found(tail, name, idx - 1);
        assert(seq![entries[0]] + (tail.subrange(0, idx - 1) + tail.subrange(
            idx,
            tail.len() as int,
        )) =~= entries.subrange(0, idx) + entries.subrange(idx + 1, entries.len() as int));
    }
}

proof fn lemma_remove_entry_missing(entries: Seq<ConfigEntryView>, name: Seq<char>)
    requires
        forall|j: int| 0 <= j < entries.len() ==> entries[j].name != name,
    ensures
        spec_remove_entry(entries, name) == (None::<SettingsValueView>, entries),
    decreases entries.len(),
{
    if entries.len() > 0 {
        lemma_remove_entry_missing(entries.drop_first(), name);
        assert(seq![entries[0]] + entries.drop_first() =~= entries);
    }
}

/// Takes a name's settings entry out of the per-check map, if one is
/// there, returning the entry's value and the rest of the map.
fn remove_entry(entries: Vec<ConfigEntry>, name: &str) -> (r: (Option<SettingsValue>, Vec<ConfigEntry>))
    ensures
        r.0.deep_view() == spec_remove_entry(entries.deep_view(), name@).0,
        r.1.deep_view() == spec_remove_entry(entries.deep_view(), name@).1,
{
    let ghost entries0 = entries.deep_view();
    let mut work = entries;
    let mut i: usize = 0;
    while i < work.len()
        invariant
            0 <= i <= work@.len(),
            entries0 == entries.deep_view(),
            entries0 == work.deep_view(),
            entries0.len() == work@.len(),
            forall|j: int| 0 <= j < i ==> entries0[j].name != name@,
        decreases work@.len() - i,
    {
        if str_eq(work[i].name.as_str(), name) {
            let ghost shallow_before = work@;
            proof {
                assert(entries0[i as int] == shallow_before[i as int]@);
                assert(entries0[i as int].name == name@);
            }
            let e = work.remove(i);
            proof {
                assert(e@ == entries0[i as int]);
                assert(Some(e.settings).deep_view() == Some(entries0[i as int].settings));
                lemma_remove_entry_found(entries0, name@, i as int);
                assert forall|k: int| 0 <= k < work.deep_view().len() implies work.deep_view()[k]
                    == (entries0.subrange(0, i as int) + entries0.subrange(
                    i + 1,
                    entries0.len() as int,
                ))[k] by {
                    assert(work@[k] == shallow_before.remove(i as int)[k]);
                    if k < i {
                        assert(work@[k] == shallow_before[k]);
                    } else {
                        assert(work@[k] == shallow_before[k + 1]);
                    }
                }
                assert(work.deep_view() =~= entries0.subrange(0, i as int) + entries0.subrange(
                    i + 1,
                    entries0.len() as int,
                ));
            }
            return (Some(e.settings), work);
        }
        i += 1;
    }
    proof {
        lemma_remove_entry_missing(entries0, name@);
    }
    (None, work)
}

/// Constructing the registry's checks against the per-check settings
/// map, in registry order: each row takes its named entry out of the
/// map and builds its check from it; the first rejection aborts the
/// whole construction with the offending name and cause.
pub open spec fn spec_construct(kinds: Seq<CheckKind>, entries: Seq<ConfigEntryView>) -> Result<
    (Seq<BuiltinCheckView>, Seq<ConfigEntryView>),
    CheckerErrorView,
>
    decreases kinds.len(),
{
    if kinds.len() == 0 {
        Ok((Seq::empty(), entries))
    } else {
        let removed = spec_remove_entry(entries, name_of(kinds[0]));
        match spec_build_check(kinds[0], removed.0) {
            Err(stage_problem) => Err(
                if stage_problem.0 {
                    CheckerErrorView::RuleNewError {
                        name: name_of(kinds[0]),
                        problem: stage_problem.1,
                    }
                } else {
                    CheckerErrorView::ConfigDeserializeError {
                        name: name_of(kinds[0]),
                        problem: stage_problem.1,
                    }
                },
            ),
            Ok(check) => match spec_construct(kinds.drop_first(), removed.1) {
                Err(e) => Err(e),
                Ok(rest) => Ok((seq![check] + rest.0, rest.1)),
            },
        }
    }
}

fn construct_checks(kinds: &Vec<CheckKind>, entries: Vec<ConfigEntry>) -> (r: Result<
    (Vec<BuiltinCheck>, Vec<ConfigEntry>),
    CheckerError,
>)
    ensures
        match r {
            Ok(pair) => spec_construct(kinds@, entries.deep_view()) == Ok::<
                (Seq<BuiltinCheckView>, Seq<ConfigEntryView>),
                CheckerErrorView,
            >((pair.0.deep_view(), pair.1.deep_view())),
            Err(e) => spec_construct(kinds@, entries.deep_view()) == Err::<
                (Seq<BuiltinCheckView>, Seq<ConfigEntryView>),
                CheckerErrorView,
            >(e@),
        },
{
    let ghost entries0 = entries.deep_view();
    let mut work = entries;
    let mut checks: Vec<BuiltinCheck> = Vec::new();
    proof {
        assert(checks.deep_view() =~= Seq::<BuiltinCheckView>::empty());
        assert(kinds@.skip(0) =~= kinds@);
    }
    let mut i: usize = 0;
    while i < kinds.len()
        invariant
            0 <= i <= kinds@.len(),
            entries0 == entries.deep_view(),
            match spec_construct(kinds@.skip(i as int), work.deep_view()) {
                Ok(rest) => spec_construct(kinds@, entries0) == Ok::<
                    (Seq<BuiltinCheckView>, Seq<ConfigEntryView>),
                    CheckerErrorView,
                >((checks.deep_view() + rest.0, rest.1)),
                Err(e) => spec_construct(kinds@, entries0) == Err::<
                    (Seq<BuiltinCheckView>, Seq<ConfigEntryView>),
                    CheckerErrorView,
                >(e),
            },
        decreases kinds@.len() - i,
    {
        proof {
            assert(kinds@.skip(i as int)[0] == kinds@[i as int]);
            assert(kinds@.skip(i as int).drop_first() =~= kinds@.skip(i + 1));
        }
        let ghost checks_prev = checks.deep_view();
        let kind = kinds[i];
        let (entry, remaining) = remove_entry(work, check_name(kind));
        work = remaining;
        match build_check(kind, entry) {
            Ok(check) => {
                let ghost cv = check@;
                checks.push(check);
                proof {
                    assert(checks.deep_view() =~= checks_prev.push(cv));
                    match spec_construct(kinds@.skip(i + 1), work.deep_view()) {
                        Ok(rest) => {
                            assert(checks_prev + (seq![cv] + rest.0) =~= checks.deep_view()
                                + rest.0);
                        },
                        Err(e) => {},
                    }
                }
            },
            Err((validation_stage, problem)) => {
                if validation_stage {
                    return Err(
                        CheckerError::RuleNewError { name: check_name(kind).to_owned(), problem },
                    );
                } else {
                    return Err(
                        CheckerError::ConfigDeserializeError {
                            name: check_name(kind).to_owned(),
                            problem,
                        },
                    );
                }
            },
        }
        i += 1;
    }
    proof {
        assert(kinds@.skip(kinds@.len() as int) =~= Seq::<CheckKind>::empty());
        assert(checks.deep_view() + Seq::<BuiltinCheckView>::empty() =~= checks.deep_view());
    }
    Ok((checks, work))
}

/// Loads every declared plugin, in declaration order, failing fast: the
/// first plugin that does not load aborts construction.
pub fn create_plugins_from_config<P: Plugin>(config: &CheckerConfig) -> (r: Result<
    Vec<LoadedPlugin<P>>,
    CheckerError,
>)
    ensures
        match r {
            Ok(v) => v@.len() == config@.plugins.len() && forall|i: int|
                0 <= i < v@.len() ==> (#[trigger] v@[i]).full_name@ == spec_full_name(
                    config@.plugins[i].name,
                ),
            Err(e) => e@ is InvalidPlugin,
        },
        config@.plugins.len() == 0 ==> r is Ok,
{
    let mut loaded: Vec<LoadedPlugin<P>> = Vec::new();
    let mut i: usize = 0;
    while i < config.plugins.len()
        invariant
            0 <= i <= config.plugins@.len(),
            config@.plugins.len() == config.plugins@.len(),
            loaded@.len() == i,
            forall|j: int|
                0 <= j < i ==> (#[trigger] loaded@[j]).full_name@ == spec_full_name(
                    config@.plugins[j].name,
                ),
        decreases config.plugins@.len() - i,
    {
        let plugin_config = &config.plugins[i];
        match P::load(plugin_config) {
            Ok((plugin, severity)) => {
                loaded.push(
                    LoadedPlugin { full_name: full_name_for(plugin_config), severity, plugin },
                );
            },
            Err(problem) => {
                return Err(CheckerError::InvalidPlugin { problem });
            },
        }
        i += 1;
    }
    Ok(loaded)
}

/// What one plugin's run outcome contributes to the file's diagnostics:
/// on success, its findings tagged with the plugin's resolved severity;
/// on a runtime fault, exactly one Error-severity diagnostic bearing
/// the plugin's full name and the fault text.
pub open spec fn spec_plugin_fault_diag(full_name: Seq<char>, problem: Seq<char>) -> DiagnosticView {
    DiagnosticView {
        code: full_name,
        message: "error running plugin: "@ + problem,
        primary_label: Label { start: 0, end: 0 },
        secondary_labels: Seq::empty(),
        notes: Seq::empty(),
    }
}

/// One plugin outcome, over mathematical values.
pub open spec fn spec_outcome_view(outcome: Result<Vec<Diagnostic>, String>) -> Result<
    Seq<DiagnosticView>,
    Seq<char>,
> {
    match outcome {
        Ok(ds) => Ok(ds.deep_view()),
        Err(problem) => Err(problem@),
    }
}

pub open spec fn spec_merge_one(
    full_name: Seq<char>,
    declared: Severity,
    rules: Seq<RuleOverrideView>,
    outcome: Result<Seq<DiagnosticView>, Seq<char>>,
) -> Seq<CheckerDiagnosticView> {
    match outcome {
        Ok(ds) => spec_tag(ds, spec_resolved_severity(rules, full_name, declared)),
        Err(problem) => seq![
            CheckerDiagnosticView {
                diagnostic: spec_plugin_fault_diag(full_name, problem),
                severity: Severity::Error,
            },
        ],
    }
}

/// The first `n` plugins' contributions, in plugin order.
pub open spec fn spec_merge_plugins<P>(
    plugins: Seq<LoadedPlugin<P>>,
    rules: Seq<RuleOverrideView>,
    outcomes: Seq<Result<Seq<DiagnosticView>, Seq<char>>>,
    n: int,
) -> Seq<CheckerDiagnosticView>
    decreases n,
{
    if n <= 0 {
        Seq::empty()
    } else {
        spec_merge_plugins(plugins, rules, outcomes, n - 1) + spec_merge_one(
            plugins[n - 1].full_name@,
            plugins[n - 1].severity,
            rules,
            outcomes[n - 1],
        )
    }
}

proof fn lemma_merge_plugins_push<P>(
    plugins: Seq<LoadedPlugin<P>>,
    rules: Seq<RuleOverrideView>,
    outcomes: Seq<Result<Seq<DiagnosticView>, Seq<char>>>,
    extra: Result<Seq<DiagnosticView>, Seq<char>>,
    n: int,
)
    requires
        0 <= n <= outcomes.len(),
    ensures
        spec_merge_plugins(plugins, rules, outcomes.push(extra), n) == spec_merge_plugins(
            plugins,
            rules,
            outcomes,
            n,
        ),
    decreases n,
{
    if n > 0 {
        lemma_merge_plugins_push(plugins, rules, outcomes, extra, n - 1);
        assert(outcomes.push(extra)[n - 1] == outcomes[n - 1]);
    }
}

/// Appends one unit's findings, each tagged with the given severity.
pub fn tag_into(diagnostics: &mut Vec<CheckerDiagnostic>, ds: Vec<Diagnostic>, severity: Severity)
    ensures
        final(diagnostics).deep_view() == old(diagnostics).deep_view() + spec_tag(
            ds.deep_view(),
            severity,
        ),
{
    let ghost ds0 = ds.deep_view();
    let mut rest = ds;
    let n = rest.len();
    proof {
        assert(rest.deep_view() =~= ds0.skip(0));
        assert(diagnostics.deep_view() + spec_tag(ds0.take(0), severity) =~= diagnostics
            .deep_view());
    }
    let mut i: usize = 0;
    while i < n
        invariant
            0 <= i <= n,
            n == ds0.len(),
            ds.deep_view() == ds0,
            rest@.len() == n - i,
            rest.deep_view() =~= ds0.skip(i as int),
            diagnostics.deep_view() == old(diagnostics).deep_view() + spec_tag(
                ds0.take(i as int),
                severity,
            ),
        decreases n - i,
    {
        let ghost prev = diagnostics.deep_view();
        let ghost shallow_before = rest@;
        let ghost deep_before = rest.deep_view();
        let d = rest.remove(0);
        proof {
            assert(deep_before[0] == shallow_before[0].deep_view());
            assert(d@ == ds0[i as int]);
            assert(rest@ =~= shallow_before.skip(1));
            assert forall|k: int| 0 <= k < rest.deep_view().len() implies rest.deep_view()[k]
                == ds0.skip(i + 1)[k] by {
                assert(rest@[k] == shallow_before[k + 1]);
                assert(rest.deep_view()[k] == rest@[k].deep_view());
                assert(deep_before[k + 1] == shallow_before[k + 1].deep_view());
                assert(deep_before[k + 1] == ds0.skip(i as int)[k + 1]);
                assert(ds0.skip(i as int)[k + 1] == ds0[i + 1 + k]);
                assert(ds0.skip(i + 1)[k] == ds0[i + 1 + k]);
            }
            assert(rest.deep_view() =~= ds0.skip(i + 1));
        }
        diagnostics.push(CheckerDiagnostic { diagnostic: d, severity });
        proof {
            assert(diagnostics.deep_view() =~= prev.push(
                CheckerDiagnosticView { diagnostic: ds0[i as int], severity },
            ));
            assert(spec_tag(ds0.take(i + 1), severity) =~= spec_tag(
                ds0.take(i as int),
                severity,
            ).push(CheckerDiagnosticView { diagnostic: ds0[i as int], severity }));
        }
        i += 1;
    }
    proof {
        assert(ds0.take(n as int) =~= ds0);
    }
}

/// Merges one plugin's run outcome into the accumulated diagnostics:
/// findings are tagged with the plugin's resolved severity; a runtime
/// fault becomes exactly one Error-severity diagnostic under the
/// plugin's full name, and nothing else changes.
pub fn merge_plugin_outcome(
    diagnostics: &mut Vec<CheckerDiagnostic>,
    full_name: &str,
    declared: Severity,
    rules: &Vec<RuleOverride>,
    outcome: Result<Vec<Diagnostic>, String>,
)
    ensures
        final(diagnostics).deep_view() == old(diagnostics).deep_view() + spec_merge_one(
            full_name@,
            declared,
            rules.deep_view(),
            spec_outcome_view(outcome),
        ),
{
    match outcome {
        Ok(ds) => {
            let severity = resolve_severity(rules, full_name, declared);
            tag_into(diagnostics, ds, severity);
        },
        Err(problem) => {
            let ghost prev = diagnostics.deep_view();
            let d = Diagnostic::new(
                full_name.to_owned(),
                "error running plugin: ".to_owned().concat(problem.as_str()),
                Label::new((0, 0)),
            );
            diagnostics.push(CheckerDiagnostic { diagnostic: d, severity: Severity::Error });
            proof {
                assert(diagnostics.deep_view() =~= prev + spec_merge_one(
                    full_name@,
                    declared,
                    rules.deep_view(),
                    Err(problem@),
                ));
            }
        },
    }
}

/// The names of the constructed checks, in registry order.
pub open spec fn spec_check_names(checks: Seq<BuiltinCheckView>) -> Seq<Seq<char>>
    decreases checks.len(),
{
    if checks.len() == 0 {
        Seq::empty()
    } else {
        spec_check_names(checks.drop_last()).push(name_of(checks.last().kind))
    }
}

/// The loaded plugins' full names, in declaration order.
pub open spec fn spec_plugin_names<P>(plugins: Seq<LoadedPlugin<P>>) -> Seq<Seq<char>>
    decreases plugins.len(),
{
    if plugins.len() == 0 {
        Seq::empty()
    } else {
        spec_plugin_names(plugins.drop_last()).push(plugins.last().full_name@)
    }
}

/// Every built-in check's tagged findings, accumulated in registry
/// order.
pub open spec fn spec_builtin_diags(
    checks: Seq<BuiltinCheckView>,
    rules: Seq<RuleOverrideView>,
    ctx: crate::rules::ContextView,
    astv: AstView,
    actx: crate::rules::AstContextView,
) -> Seq<CheckerDiagnosticView>
    decreases checks.len(),
{
    if checks.len() == 0 {
        Seq::empty()
    } else {
        spec_builtin_diags(checks.drop_last(), rules, ctx, astv, actx) + spec_tag(
            spec_check_pass(checks.last(), astv, ctx, actx),
            spec_resolved_severity(
                rules,
                name_of(checks.last().kind),
                default_severity_of(checks.last().kind),
            ),
        )
    }
}

/// A constructed engine: one instance of every registered built-in
/// check, the loaded plugins, the shared context and the remaining
/// configuration. Built once per configuration, then reused file after
/// file.
pub struct Checker<P> {
    pub config: CheckerConfig,
    pub context: Context,
    pub checks: Vec<BuiltinCheck>,
    pub plugins: Vec<LoadedPlugin<P>>,
}

/// The per-file facts the pipeline derives before any check runs.
pub open spec fn spec_facts(astv: AstView) -> crate::rules::AstContextView {
    crate::rules::AstContextView {
        comments: astv.comments,
        read_names: crate::rules::spec_read_names(astv.stmts),
    }
}

/// The unit names a suppression directive may target: every registered
/// check, and every loaded plugin by its full name.
pub open spec fn spec_known_names<P>(c: &Checker<P>) -> Seq<Seq<char>> {
    spec_check_names(c.checks.deep_view()) + spec_plugin_names(c.plugins@)
}

/// The whole per-file pipeline, as a function of the engine, the tree,
/// and whatever the plugins returned: built-in findings in registry
/// order, then plugin findings in plugin order, all severity-tagged,
/// with the filtering overlay applied last.
pub open spec fn spec_pipeline<P>(
    c: &Checker<P>,
    astv: AstView,
    outcomes: Seq<Result<Seq<DiagnosticView>, Seq<char>>>,
) -> Seq<CheckerDiagnosticView> {
    spec_filter_output(
        astv,
        spec_builtin_diags(c.checks.deep_view(), c.config@.rules, c.context@, astv, spec_facts(astv))
            + spec_merge_plugins(c.plugins@, c.config@.rules, outcomes, c.plugins@.len() as int),
        spec_known_names(c),
        spec_resolved_severity(
            c.config@.rules,
            name_of(CheckKind::InvalidLintFilter),
            default_severity_of(CheckKind::InvalidLintFilter),
        ),
    )
}

/// That one run of the plugin subsystem turned `old_d` into `new_d`
/// with these per-plugin outcomes.
pub open spec fn spec_plugins_merged<P>(
    c: &Checker<P>,
    old_d: Seq<CheckerDiagnosticView>,
    new_d: Seq<CheckerDiagnosticView>,
    outcomes: Seq<Result<Seq<DiagnosticView>, Seq<char>>>,
) -> bool {
    outcomes.len() == c.plugins@.len() && new_d == old_d + spec_merge_plugins(
        c.plugins@,
        c.config@.rules,
        outcomes,
        c.plugins@.len() as int,
    )
}

/// That one per-file run returned `rv` with these per-plugin outcomes.
pub open spec fn spec_run_result<P>(
    c: &Checker<P>,
    astv: AstView,
    rv: Seq<CheckerDiagnosticView>,
    outcomes: Seq<Result<Seq<DiagnosticView>, Seq<char>>>,
) -> bool {
    outcomes.len() == c.plugins@.len() && rv == spec_pipeline(c, astv, outcomes)
}

impl<P: Plugin> Checker<P> {
    /// A reporting unit's severity: the configuration's override for
    /// the name when present, else the given default.
    pub fn get_lint_severity(&self, name: &str, default: Severity) -> (r: Severity)
        ensures
            r == spec_resolved_severity(self.config@.rules, name@, default),
    {
        resolve_severity(&self.config.rules, name, default)
    }

    /// The names a directive may target on this engine.
    fn known_names(&self) -> (r: Vec<String>)
        ensures
            r.deep_view() == spec_known_names(self),
    {
        let mut names: Vec<String> = Vec::new();
        proof {
            assert(names.deep_view() =~= Seq::<Seq<char>>::empty());
            assert(self.checks.deep_view().take(0) =~= Seq::<BuiltinCheckView>::empty());
        }
        let mut i: usize = 0;
        while i < self.checks.len()
            invariant
                0 <= i <= self.checks@.len(),
                self.checks.deep_view().len() == self.checks@.len(),
                names.deep_view() == spec_check_names(self.checks.deep_view().take(i as int)),
            decreases self.checks@.len() - i,
        {
            proof {
                assert(self.checks.deep_view().take(i + 1).drop_last() =~= self.checks.deep_view()
                    .take(i as int));
                assert(self.checks.deep_view().take(i + 1).last() == self.checks[i as int]@);
            }
            let ghost prev = names.deep_view();
            names.push(check_name(self.checks[i].kind).to_owned());
            proof {
                assert(names.deep_view() =~= prev.push(name_of(self.checks[i as int]@.kind)));
            }
            i += 1;
        }
        proof {
            assert(self.checks.deep_view().take(self.checks@.len() as int) =~= self.checks
                .deep_view());
        }
        let ghost base = names.deep_view();
        proof {
            assert(self.plugins@.take(0) =~= Seq::<LoadedPlugin<P>>::empty());
            assert(base + spec_plugin_names(self.plugins@.take(0)) =~= base);
        }
        let mut j: usize = 0;
        while j < self.plugins.len()
            invariant
                0 <= j <= self.plugins@.len(),
                base == spec_check_names(self.checks.deep_view()),
                names.deep_view() == base + spec_plugin_names(self.plugins@.take(j as int)),
            decreases self.plugins@.len() - j,
        {
            proof {
                assert(self.plugins@.take(j + 1).drop_last() =~= self.plugins@.take(j as int));
                assert(self.plugins@.take(j + 1).last() == self.plugins@[j as int]);
            }
            let ghost prev = names.deep_view();
            names.push(self.plugins[j].full_name.clone());
            proof {
                assert(names.deep_view() =~= prev.push(self.plugins@[j as int].full_name@));
                assert(names.deep_view() =~= base + spec_plugin_names(self.plugins@.take(j + 1)));
            }
            j += 1;
        }
        proof {
            assert(self.plugins@.take(self.plugins@.len() as int) =~= self.plugins@);
        }
        names
    }

    /// Runs every loaded plugin over one file, in declaration order,
    /// merging each outcome into the accumulated diagnostics. The
    /// bridged tree is built once, and only when plugins exist; each
    /// plugin in turn gets exclusive use of it. Whatever each plugin
    /// returned, its contribution follows [`spec_merge_one`]: one
    /// broken plugin never blocks the rest of the file's analysis.
    pub fn run_plugins(
        &self,
        diagnostics: &mut Vec<CheckerDiagnostic>,
        ast: &Ast,
        ast_context: &AstContext,
    )
        ensures
            exists|outcomes: Seq<Result<Seq<DiagnosticView>, Seq<char>>>|
                spec_plugins_merged(
                    self,
                    old(diagnostics).deep_view(),
                    final(diagnostics).deep_view(),
                    outcomes,
                ),
            self.plugins@.len() == 0 ==> final(diagnostics).deep_view() == old(
                diagnostics,
            ).deep_view(),
    {
        let ghost empty_outcomes = Seq::<Result<Seq<DiagnosticView>, Seq<char>>>::empty();
        if self.plugins.len() == 0 {
            proof {
                assert(diagnostics.deep_view() =~= old(diagnostics).deep_view()
                    + spec_merge_plugins(
                    self.plugins@,
                    self.config@.rules,
                    empty_outcomes,
                    self.plugins@.len() as int,
                ));
                assert(spec_plugins_merged(
                    self,
                    old(diagnostics).deep_view(),
                    diagnostics.deep_view(),
                    empty_outcomes,
                ));
            }
            return ;
        }
        let bridge_opt = bridge_for(self.plugins.len(), ast);
        let bridge = match bridge_opt {
            Some(b) => b,
            None => vstd::pervasive::unreached(),
        };
        let ghost mut outcomes = Seq::<Result<Seq<DiagnosticView>, Seq<char>>>::empty();
        proof {
            assert(diagnostics.deep_view() =~= old(diagnostics).deep_view() + spec_merge_plugins(
                self.plugins@,
                self.config@.rules,
                outcomes,
                0,
            ));
        }
        let mut i: usize = 0;
        while i < self.plugins.len()
            invariant
                0 <= i <= self.plugins@.len(),
                outcomes.len() == i,
                diagnostics.deep_view() == old(diagnostics).deep_view() + spec_merge_plugins(
                    self.plugins@,
                    self.config@.rules,
                    outcomes,
                    i as int,
                ),
            decreases self.plugins@.len() - i,
        {
            let loaded = &self.plugins[i];
            let outcome = loaded.plugin.run(&bridge, &self.context, ast_context);
            let ghost outcome_v = spec_outcome_view(outcome);
            merge_plugin_outcome(
                diagnostics,
                loaded.full_name.as_str(),
                loaded.severity,
                &self.config.rules,
                outcome,
            );
            proof {
                lemma_merge_plugins_push(
                    self.plugins@,
                    self.config@.rules,
                    outcomes,
                    outcome_v,
                    i as int,
                );
                outcomes = outcomes.push(outcome_v);
                assert(outcomes[i as int] == outcome_v);
                assert(diagnostics.deep_view() =~= old(diagnostics).deep_view()
                    + spec_merge_plugins(
                    self.plugins@,
                    self.config@.rules,
                    outcomes,
                    i + 1,
                ));
            }
            i += 1;
        }
        proof {
            assert(outcomes.len() == self.plugins@.len());
            assert(diagnostics.deep_view() == old(diagnostics).deep_view() + spec_merge_plugins(
                self.plugins@,
                self.config@.rules,
                outcomes,
                self.plugins@.len() as int,
            ));
            assert(spec_plugins_merged(
                self,
                old(diagnostics).deep_view(),
                diagnostics.deep_view(),
                outcomes,
            ));
        }
    }

    /// Analyzes one file: derives the per-file facts, runs every
    /// built-in check in registry order, runs the plugins, and applies
    /// the filtering overlay over the merged findings. With no plugins
    /// configured the result is a pure function of the engine and the
    /// tree.
    pub fn test_on(&self, ast: &Ast) -> (r: Vec<CheckerDiagnostic>)
        requires
            ast@.wf(),
        ensures
            exists|outcomes: Seq<Result<Seq<DiagnosticView>, Seq<char>>>|
                spec_run_result(self, ast@, r.deep_view(), outcomes),
            self.plugins@.len() == 0 ==> r.deep_view() == spec_pipeline(
                self,
                ast@,
                Seq::<Result<Seq<DiagnosticView>, Seq<char>>>::empty(),
            ),
    {
        let ast_context = AstContext::from_ast(ast);
        proof {
            assert(ast_context@ == spec_facts(ast@));
        }
        let mut diagnostics: Vec<CheckerDiagnostic> = Vec::new();
        proof {
            assert(diagnostics.deep_view() =~= Seq::<CheckerDiagnosticView>::empty());
            assert(self.checks.deep_view().take(0) =~= Seq::<BuiltinCheckView>::empty());
        }
        let mut i: usize = 0;
        while i < self.checks.len()
            invariant
                0 <= i <= self.checks@.len(),
                self.checks.deep_view().len() == self.checks@.len(),
                ast@.wf(),
                ast_context@ == spec_facts(ast@),
                diagnostics.deep_view() == spec_builtin_diags(
                    self.checks.deep_view().take(i as int),
                    self.config@.rules,
                    self.context@,
                    ast@,
                    spec_facts(ast@),
                ),
            decreases self.checks@.len() - i,
        {
            proof {
                assert(self.checks.deep_view().take(i + 1).drop_last() =~= self.checks.deep_view()
                    .take(i as int));
                assert(self.checks.deep_view().take(i + 1).last() == self.checks[i as int]@);
            }
            let check = &self.checks[i];
            let ds = run_check(check, ast, &self.context, &ast_context);
            let severity = resolve_severity(
                &self.config.rules,
                check_name(check.kind),
                default_severity(check.kind),
            );
            tag_into(&mut diagnostics, ds, severity);
            i += 1;
        }
        proof {
            assert(self.checks.deep_view().take(self.checks@.len() as int) =~= self.checks
                .deep_view());
        }
        let ghost base = diagnostics.deep_view();
        self.run_plugins(&mut diagnostics, ast, &ast_context);
        let ghost outcomes = choose|outcomes: Seq<Result<Seq<DiagnosticView>, Seq<char>>>|
            spec_plugins_merged(self, base, diagnostics.deep_view(), outcomes);
        let ghost merged = diagnostics.deep_view();
        let known = self.known_names();
        let filter_severity = self.get_lint_severity(
            check_name(CheckKind::InvalidLintFilter),
            default_severity(CheckKind::InvalidLintFilter),
        );
        let r = filter_diagnostics(ast, diagnostics, &known, filter_severity);
        proof {
            assert(spec_plugins_merged(self, base, merged, outcomes));
            assert(r.deep_view() == spec_pipeline(self, ast@, outcomes));
            assert(spec_run_result(self, ast@, r.deep_view(), outcomes));
            if self.plugins@.len() == 0 {
                assert(merged =~= base + spec_merge_plugins(
                    self.plugins@,
                    self.config@.rules,
                    Seq::<Result<Seq<DiagnosticView>, Seq<char>>>::empty(),
                    0,
                ));
                assert(r.deep_view() == spec_pipeline(
                    self,
                    ast@,
                    Seq::<Result<Seq<DiagnosticView>, Seq<char>>>::empty(),
                ));
            }
        }
        r
    }

    /// Constructs an engine, registering the optional capability-gated
    /// rows when asked to: deserializes and validates every check's
    /// settings in registry order, then loads every plugin in
    /// declaration order, failing fast with the first offending unit's
    /// name and cause.
    pub fn with_capabilities(
        config: CheckerConfig,
        standard_library: StandardLibrary,
        roblox: bool,
    ) -> (r: Result<Checker<P>, CheckerError>)
        ensures
            match spec_construct(spec_registry(roblox), config@.config) {
                Err(e) => match r {
                    Ok(_) => false,
                    Err(err) => err@ == e,
                },
                Ok(built) => match r {
                    Ok(c) => {
                        &&& c.checks.deep_view() == built.0
                        &&& c.config@.config == built.1
                        &&& c.config@.plugins == config@.plugins
                        &&& c.config@.rules == config@.rules
                        &&& c.config@.std == config@.std
                        &&& c.config@.roblox_std_source == config@.roblox_std_source
                        &&& c.context@.standard_library == standard_library@
                        &&& c.context@.standard_library_is_set == (config@.std.len() > 0)
                        &&& c.plugins@.len() == config@.plugins.len()
                        &&& forall|i: int|
                            0 <= i < c.plugins@.len() ==> (#[trigger] c.plugins@[i]).full_name@
                                == spec_full_name(config@.plugins[i].name)
                    },
                    Err(err) => err@ is InvalidPlugin && config@.plugins.len() > 0,
                },
            },
    {
        let kinds = registry_kinds(roblox);
        let CheckerConfig { config: entries, plugins, rules, std, roblox_std_source } = config;
        let (checks, remaining) = match construct_checks(&kinds, entries) {
            Ok(pair) => pair,
            Err(e) => {
                return Err(e);
            },
        };
        let rebuilt = CheckerConfig { config: remaining, plugins, rules, std, roblox_std_source };
        let loaded = match create_plugins_from_config::<P>(&rebuilt) {
            Ok(v) => v,
            Err(e) => {
                return Err(e);
            },
        };
        let standard_library_is_set = !rebuilt.std.as_str().is_empty();
        Ok(
            Checker {
                context: Context { standard_library, standard_library_is_set },
                checks,
                plugins: loaded,
                config: rebuilt,
            },
        )
    }

    /// Constructs an engine with the base registry.
    pub fn new(config: CheckerConfig, standard_library: StandardLibrary) -> (r: Result<
        Checker<P>,
        CheckerError,
    >)
        ensures
            match spec_construct(spec_registry(false), config@.config) {
                Err(e) => match r {
                    Ok(_) => false,
                    Err(err) => err@ == e,
                },
                Ok(built) => match r {
                    Ok(c) => {
                        &&& c.checks.deep_view() == built.0
                        &&& c.config@.config == built.1
                        &&& c.config@.plugins == config@.plugins
                        &&& c.config@.rules == config@.rules
                        &&& c.config@.std == config@.std
                        &&& c.config@.roblox_std_source == config@.roblox_std_source
                        &&& c.context@.standard_library == standard_library@
                        &&& c.context@.standard_library_is_set == (config@.std.len() > 0)
                        &&& c.plugins@.len() == config@.plugins.len()
                        &&& forall|i: int|
                            0 <= i < c.plugins@.len() ==> (#[trigger] c.plugins@[i]).full_name@
                                == spec_full_name(config@.plugins[i].name)
                    },
                    Err(err) => err@ is InvalidPlugin && config@.plugins.len() > 0,
                },
            },
    {
        Self::with_capabilities(config, standard_library, false)
    }
}

} // verus!
