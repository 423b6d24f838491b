//! The fixed, ordered registry of built-in checks: their names, their
//! compiled-in default severities, their per-check settings, and their
//! passes over one file's tree.
//!
//! The registry is a data-driven table. Each row names one check and
//! carries how to build it from its settings entry; construction walks
//! the rows in their fixed order. The modeled tree carries local
//! declarations, name reads and global assignments, so the checks whose
//! patterns concern other syntax have nothing to match in it and report
//! nothing; every row still takes part in construction, severity
//! resolution and directive validation.

use crate::ast::Ast;
use crate::ast::AstView;
use crate::ast::StmtView;
use crate::rules::AstContext;
use crate::rules::AstContextView;
use crate::rules::Context;
use crate::rules::ContextView;
use crate::rules::Diagnostic;
use crate::rules::DiagnosticView;
use crate::rules::Label;
use crate::rules::Severity;
use crate::text::contains_name;
use crate::text::has_prefix;
use crate::text::spec_contains_str;
use crate::text::spec_has_prefix;
use crate::text::str_eq;
use vstd::prelude::*;
use vstd::string::StringExecFns;

verus! {

/// The fixed set of built-in checks.
#[derive(Clone, Copy, Debug, PartialEq, Eq, Structural)]
pub enum CheckKind {
    AlmostSwapped,
    BadStringEscape,
    CompareNan,
    ConstantTableComparison,
    Deprecated,
    DivideByZero,
    DuplicateKeys,
    EmptyIf,
    GlobalUsage,
    IfSameThenElse,
    IfsSameCond,
    IncorrectStandardLibraryUse,
    InvalidLintFilter,
    MismatchedArgCount,
    MultipleStatements,
    MustUse,
    ParentheseConditions,
    Shadowing,
    SuspiciousReverseLoop,
    TypeCheckInsideCall,
    UnbalancedAssignments,
    UndefinedVariable,
    UnscopedVariables,
    UnusedVariable,
    RobloxIncorrectColor3NewBounds,
    RobloxIncorrectRoactUsage,
}

impl View for CheckKind {
    type V = CheckKind;

    open spec fn view(&self) -> CheckKind {
        *self
    }
}

impl DeepView for CheckKind {
    type V = CheckKind;

    open spec fn deep_view(&self) -> CheckKind {
        *self
    }
}

/// The registry name of a check, as configuration keys, severity
/// overrides and suppression directives spell it.
pub open spec fn name_of(kind: CheckKind) -> Seq<char> {
    match kind {
        CheckKind::AlmostSwapped => "almost_swapped"@,
        CheckKind::BadStringEscape => "bad_string_escape"@,
        CheckKind::CompareNan => "compare_nan"@,
        CheckKind::ConstantTableComparison => "constant_table_comparison"@,
        CheckKind::Deprecated => "deprecated"@,
        CheckKind::DivideByZero => "divide_by_zero"@,
        CheckKind::DuplicateKeys => "duplicate_keys"@,
        CheckKind::EmptyIf => "empty_if"@,
        CheckKind::GlobalUsage => "global_usage"@,
        CheckKind::IfSameThenElse => "if_same_then_else"@,
        CheckKind::IfsSameCond => "ifs_same_cond"@,
        CheckKind::IncorrectStandardLibraryUse => "incorrect_standard_library_use"@,
        CheckKind::InvalidLintFilter => "invalid_lint_filter"@,
        CheckKind::MismatchedArgCount => "mismatched_arg_count"@,
        CheckKind::MultipleStatements => "multiple_statements"@,
        CheckKind::MustUse => "must_use"@,
        CheckKind::ParentheseConditions => "parenthese_conditions"@,
        CheckKind::Shadowing => "shadowing"@,
        CheckKind::SuspiciousReverseLoop => "suspicious_reverse_loop"@,
        CheckKind::TypeCheckInsideCall => "type_check_inside_call"@,
        CheckKind::UnbalancedAssignments => "unbalanced_assignments"@,
        CheckKind::UndefinedVariable => "undefined_variable"@,
        CheckKind::UnscopedVariables => "unscoped_variables"@,
        CheckKind::UnusedVariable => "unused_variable"@,
        CheckKind::RobloxIncorrectColor3NewBounds => "roblox_incorrect_color3_new_bounds"@,
        CheckKind::RobloxIncorrectRoactUsage => "roblox_incorrect_roact_usage"@,
    }
}

/// The registry name as source text.
pub fn check_name(kind: CheckKind) -> (r: &'static str)
    ensures
        r@ == name_of(kind),
{
    match kind {
        CheckKind::AlmostSwapped => "almost_swapped",
        CheckKind::BadStringEscape => "bad_string_escape",
        CheckKind::CompareNan => "compare_nan",
        CheckKind::ConstantTableComparison => "constant_table_comparison",
        CheckKind::Deprecated => "deprecated",
        CheckKind::DivideByZero => "divide_by_zero",
        CheckKind::DuplicateKeys => "duplicate_keys",
        CheckKind::EmptyIf => "empty_if",
        CheckKind::GlobalUsage => "global_usage",
        CheckKind::IfSameThenElse => "if_same_then_else",
        CheckKind::IfsSameCond => "ifs_same_cond",
        CheckKind::IncorrectStandardLibraryUse => "incorrect_standard_library_use",
        CheckKind::InvalidLintFilter => "invalid_lint_filter",
        CheckKind::MismatchedArgCount => "mismatched_arg_count",
        CheckKind::MultipleStatements => "multiple_statements",
        CheckKind::MustUse => "must_use",
        CheckKind::ParentheseConditions => "parenthese_conditions",
        CheckKind::Shadowing => "shadowing",
        CheckKind::SuspiciousReverseLoop => "suspicious_reverse_loop",
        CheckKind::TypeCheckInsideCall => "type_check_inside_call",
        CheckKind::UnbalancedAssignments => "unbalanced_assignments",
        CheckKind::UndefinedVariable => "undefined_variable",
        CheckKind::UnscopedVariables => "unscoped_variables",
        CheckKind::UnusedVariable => "unused_variable",
        CheckKind::RobloxIncorrectColor3NewBounds => "roblox_incorrect_color3_new_bounds",
        CheckKind::RobloxIncorrectRoactUsage => "roblox_incorrect_roact_usage",
    }
}

/// The compiled-in default severity of a check, used when the
/// configuration carries no override for its name.
pub open spec fn default_severity_of(kind: CheckKind) -> Severity {
    match kind {
        CheckKind::Deprecated => Severity::Warning,
        CheckKind::EmptyIf => Severity::Warning,
        CheckKind::GlobalUsage => Severity::Warning,
        CheckKind::InvalidLintFilter => Severity::Warning,
        CheckKind::MultipleStatements => Severity::Warning,
        CheckKind::MustUse => Severity::Warning,
        CheckKind::Shadowing => Severity::Warning,
        CheckKind::UnscopedVariables => Severity::Warning,
        CheckKind::UnusedVariable => Severity::Warning,
        _ => Severity::Error,
    }
}

pub fn default_severity(kind: CheckKind) -> (r: Severity)
    ensures
        r == default_severity_of(kind),
{
    match kind {
        CheckKind::Deprecated => Severity::Warning,
        CheckKind::EmptyIf => Severity::Warning,
        CheckKind::GlobalUsage => Severity::Warning,
        CheckKind::InvalidLintFilter => Severity::Warning,
        CheckKind::MultipleStatements => Severity::Warning,
        CheckKind::MustUse => Severity::Warning,
        CheckKind::Shadowing => Severity::Warning,
        CheckKind::UnscopedVariables => Severity::Warning,
        CheckKind::UnusedVariable => Severity::Warning,
        _ => Severity::Error,
    }
}

/// The registry order: the fixed base rows, then, when the capability
/// flag asks for them, the optional Roblox rows.
pub open spec fn spec_registry(roblox: bool) -> Seq<CheckKind> {
    spec_base_registry() + if roblox {
        seq![CheckKind::RobloxIncorrectColor3NewBounds, CheckKind::RobloxIncorrectRoactUsage]
    } else {
        Seq::empty()
    }
}

pub open spec fn spec_base_registry() -> Seq<CheckKind> {
    seq![
        CheckKind::AlmostSwapped,
        CheckKind::BadStringEscape,
        CheckKind::CompareNan,
        CheckKind::ConstantTableComparison,
        CheckKind::Deprecated,
        CheckKind::DivideByZero,
        CheckKind::DuplicateKeys,
        CheckKind::EmptyIf,
        CheckKind::GlobalUsage,
        CheckKind::IfSameThenElse,
        CheckKind::IfsSameCond,
        CheckKind::IncorrectStandardLibraryUse,
        CheckKind::InvalidLintFilter,
        CheckKind::MismatchedArgCount,
        CheckKind::MultipleStatements,
        CheckKind::MustUse,
        CheckKind::ParentheseConditions,
        CheckKind::Shadowing,
        CheckKind::SuspiciousReverseLoop,
        CheckKind::TypeCheckInsideCall,
        CheckKind::UnbalancedAssignments,
        CheckKind::UndefinedVariable,
        CheckKind::UnscopedVariables,
        CheckKind::UnusedVariable,
    ]
}

pub fn registry_kinds(roblox: bool) -> (r: Vec<CheckKind>)
    ensures
        r@ == spec_registry(roblox),
{
    let mut r: Vec<CheckKind> = vec![
        CheckKind::AlmostSwapped,
        CheckKind::BadStringEscape,
        CheckKind::CompareNan,
        CheckKind::ConstantTableComparison,
        CheckKind::Deprecated,
        CheckKind::DivideByZero,
        CheckKind::DuplicateKeys,
        CheckKind::EmptyIf,
        CheckKind::GlobalUsage,
        CheckKind::IfSameThenElse,
        CheckKind::IfsSameCond,
        CheckKind::IncorrectStandardLibraryUse,
        CheckKind::InvalidLintFilter,
        CheckKind::MismatchedArgCount,
        CheckKind::MultipleStatements,
        CheckKind::MustUse,
        CheckKind::ParentheseConditions,
        CheckKind::Shadowing,
        CheckKind::SuspiciousReverseLoop,
        CheckKind::TypeCheckInsideCall,
        CheckKind::UnbalancedAssignments,
        CheckKind::UndefinedVariable,
        CheckKind::UnscopedVariables,
        CheckKind::UnusedVariable,
    ];
    if roblox {
        r.push(CheckKind::RobloxIncorrectColor3NewBounds);
        r.push(CheckKind::RobloxIncorrectRoactUsage);
    }
    proof {
        assert(r@ =~= spec_registry(roblox));
    }
    r
}

/// One scalar value inside a settings table.
#[derive(Debug)]
pub enum FieldValue {
    Bool(bool),
    Str(String),
}

/// Mathematical image of a [`FieldValue`].
pub enum FieldValueView {
    Bool(bool),
    Str(Seq<char>),
}

impl View for FieldValue {
    type V = FieldValueView;

    open spec fn view(&self) -> FieldValueView {
        match self {
            FieldValue::Bool(b) => FieldValueView::Bool(*b),
            FieldValue::Str(s) => FieldValueView::Str(s@),
        }
    }
}

impl DeepView for FieldValue {
    type V = FieldValueView;

    open spec fn deep_view(&self) -> FieldValueView {
        self@
    }
}

/// One `key = value` pair inside a settings table.
#[derive(Debug)]
pub struct SettingsField {
    pub key: String,
    pub value: FieldValue,
}

/// Mathematical image of a [`SettingsField`].
pub struct SettingsFieldView {
    pub key: Seq<char>,
    pub value: FieldValueView,
}

impl View for SettingsField {
    type V = SettingsFieldView;

    open spec fn view(&self) -> SettingsFieldView {
        SettingsFieldView { key: self.key@, value: self.value@ }
    }
}

impl DeepView for SettingsField {
    type V = SettingsFieldView;

    open spec fn deep_view(&self) -> SettingsFieldView {
        self@
    }
}

/// The opaque per-check settings value a configuration file carries
/// under one check's name.
#[derive(Debug)]
pub enum SettingsValue {
    Bool(bool),
    Str(String),
    Table(Vec<SettingsField>),
}

/// Mathematical image of a [`SettingsValue`].
pub enum SettingsValueView {
    Bool(bool),
    Str(Seq<char>),
    Table(Seq<SettingsFieldView>),
}

impl View for SettingsValue {
    type V = SettingsValueView;

    open spec fn view(&self) -> SettingsValueView {
        match self {
            SettingsValue::Bool(b) => SettingsValueView::Bool(*b),
            SettingsValue::Str(s) => SettingsValueView::Str(s@),
            SettingsValue::Table(fields) => SettingsValueView::Table(fields.deep_view()),
        }
    }
}

impl DeepView for SettingsValue {
    type V = SettingsValueView;

    open spec fn deep_view(&self) -> SettingsValueView {
        self@
    }
}

/// One named settings entry of the configuration's per-check map.
#[derive(Debug)]
pub struct ConfigEntry {
    pub name: String,
    pub settings: SettingsValue,
}

/// Mathematical image of a [`ConfigEntry`].
pub struct ConfigEntryView {
    pub name: Seq<char>,
    pub settings: SettingsValueView,
}

impl View for ConfigEntry {
    type V = ConfigEntryView;

    open spec fn view(&self) -> ConfigEntryView {
        ConfigEntryView { name: self.name@, settings: self.settings@ }
    }
}

impl DeepView for ConfigEntry {
    type V = ConfigEntryView;

    open spec fn deep_view(&self) -> ConfigEntryView {
        self@
    }
}

/// Settings of the unused-variable check.
#[derive(Debug)]
pub struct UnusedVariableConfig {
    /// When set, a local whose name starts with the prefix is never
    /// reported.
    pub allow_unused_prefixed: bool,
    /// The prefix that marks a local as deliberately unused.
    pub prefix: String,
}

/// Mathematical image of an [`UnusedVariableConfig`].
pub struct UnusedVariableConfigView {
    pub allow_unused_prefixed: bool,
    pub prefix: Seq<char>,
}

impl View for UnusedVariableConfig {
    type V = UnusedVariableConfigView;

    open spec fn view(&self) -> UnusedVariableConfigView {
        UnusedVariableConfigView {
            allow_unused_prefixed: self.allow_unused_prefixed,
            prefix: self.prefix@,
        }
    }
}

/// The default unused-variable settings: underscore-prefixed locals are
/// deliberately unused.
pub open spec fn spec_default_unused_config() -> UnusedVariableConfigView {
    UnusedVariableConfigView { allow_unused_prefixed: true, prefix: "_"@ }
}

/// The resolved settings of one constructed check.
#[derive(Debug)]
pub enum CheckConfig {
    Plain,
    UnusedVariable(UnusedVariableConfig),
}

/// Mathematical image of a [`CheckConfig`].
pub enum CheckConfigView {
    Plain,
    UnusedVariable(UnusedVariableConfigView),
}

impl View for CheckConfig {
    type V = CheckConfigView;

    open spec fn view(&self) -> CheckConfigView {
        match self {
            CheckConfig::Plain => CheckConfigView::Plain,
            CheckConfig::UnusedVariable(c) => CheckConfigView::UnusedVariable(c@),
        }
    }
}

/// One constructed built-in check: its registry row plus its resolved
/// settings.
#[derive(Debug)]
pub struct BuiltinCheck {
    pub kind: CheckKind,
    pub config: CheckConfig,
}

/// Mathematical image of a [`BuiltinCheck`].
pub struct BuiltinCheckView {
    pub kind: CheckKind,
    pub config: CheckConfigView,
}

impl View for BuiltinCheck {
    type V = BuiltinCheckView;

    open spec fn view(&self) -> BuiltinCheckView {
        BuiltinCheckView { kind: self.kind, config: self.config@ }
    }
}

impl DeepView for BuiltinCheck {
    type V = BuiltinCheckView;

    open spec fn deep_view(&self) -> BuiltinCheckView {
        self@
    }
}

/// Applies one settings field to the unused-variable settings;
/// rejects unknown keys and wrongly typed values.
pub open spec fn spec_apply_unused_field(
    cfg: UnusedVariableConfigView,
    field: SettingsFieldView,
) -> Result<UnusedVariableConfigView, Seq<char>> {
    if field.key == "allow-unused-prefixed"@ {
        match field.value {
            FieldValueView::Bool(b) => Ok(
                UnusedVariableConfigView { allow_unused_prefixed: b, ..cfg },
            ),
            _ => Err("allow-unused-prefixed expects a boolean"@),
        }
    } else if field.key == "prefix"@ {
        match field.value {
            FieldValueView::Str(s) => Ok(UnusedVariableConfigView { prefix: s, ..cfg }),
            _ => Err("prefix expects a string"@),
        }
    } else {
        Err("unrecognized setting"@)
    }
}

/// Folds the fields of a settings table into the unused-variable
/// settings, stopping at the first bad field.
pub open spec fn spec_parse_unused_fields(
    cfg: UnusedVariableConfigView,
    fields: Seq<SettingsFieldView>,
) -> Result<UnusedVariableConfigView, Seq<char>>
    decreases fields.len(),
{
    if fields.len() == 0 {
        Ok(cfg)
    } else {
        match spec_apply_unused_field(cfg, fields[0]) {
            Ok(next) => spec_parse_unused_fields(next, fields.drop_first()),
            Err(e) => Err(e),
        }
    }
}

/// What deserializing one check's settings entry yields: the check's
/// resolved settings, or the cause of the first rejection. A missing
/// entry means the check's defaults.
pub open spec fn spec_parse_check_config(
    kind: CheckKind,
    entry: Option<SettingsValueView>,
) -> Result<CheckConfigView, Seq<char>> {
    match kind {
        CheckKind::UnusedVariable => match entry {
            None => Ok(CheckConfigView::UnusedVariable(spec_default_unused_config())),
            Some(SettingsValueView::Table(fields)) => match spec_parse_unused_fields(
                spec_default_unused_config(),
                fields,
            ) {
                Ok(cfg) => Ok(CheckConfigView::UnusedVariable(cfg)),
                Err(e) => Err(e),
            },
            Some(_) => Err("settings must be a table"@),
        },
        _ => match entry {
            None => Ok(CheckConfigView::Plain),
            Some(SettingsValueView::Table(fields)) => if fields.len() == 0 {
                Ok(CheckConfigView::Plain)
            } else {
                Err("this check takes no settings"@)
            },
            Some(_) => Err("settings must be a table"@),
        },
    }
}

/// What a check's own construction-time validation says of its already
/// deserialized settings.
pub open spec fn spec_validate_check(kind: CheckKind, cfg: CheckConfigView) -> Result<
    CheckConfigView,
    Seq<char>,
> {
    match cfg {
        CheckConfigView::UnusedVariable(c) => if c.prefix.len() == 0 {
            Err("prefix must not be empty"@)
        } else {
            Ok(cfg)
        },
        _ => Ok(cfg),
    }
}

/// Deserializes and validates one check's settings entry.
///
/// Returns `Ok` exactly when both [`spec_parse_check_config`] and
/// [`spec_validate_check`] accept; each `Err` carries the stage and the
/// cause, `false` for the deserialize stage and `true` for the check's
/// own validation.
pub open spec fn spec_build_check(kind: CheckKind, entry: Option<SettingsValueView>) -> Result<
    BuiltinCheckView,
    (bool, Seq<char>),
> {
    match spec_parse_check_config(kind, entry) {
        Err(e) => Err((false, e)),
        Ok(cfg) => match spec_validate_check(kind, cfg) {
            Err(e) => Err((true, e)),
            Ok(cfg) => Ok(BuiltinCheckView { kind, config: cfg }),
        },
    }
}

fn parse_unused_fields(fields: &Vec<SettingsField>) -> (r: Result<UnusedVariableConfig, String>)
    ensures
        match r {
            Ok(cfg) => spec_parse_unused_fields(spec_default_unused_config(), fields.deep_view())
                == Ok::<UnusedVariableConfigView, Seq<char>>(cfg@),
            Err(e) => spec_parse_unused_fields(spec_default_unused_config(), fields.deep_view())
                == Err::<UnusedVariableConfigView, Seq<char>>(e@),
        },
{
    let mut cfg = UnusedVariableConfig { allow_unused_prefixed: true, prefix: "_".to_owned() };
    proof {
        assert(cfg@ == spec_default_unused_config());
        assert(fields.deep_view().skip(0) =~= fields.deep_view());
    }
    let mut i: usize = 0;
    while i < fields.len()
        invariant
            0 <= i <= fields@.len(),
            fields.deep_view().len() == fields@.len(),
            spec_parse_unused_fields(spec_default_unused_config(), fields.deep_view())
                == spec_parse_unused_fields(cfg@, fields.deep_view().skip(i as int)),
        decreases fields@.len() - i,
    {
        proof {
            assert(fields.deep_view().skip(i as int)[0] == fields[i as int]@);
            assert(fields.deep_view().skip(i as int).drop_first() =~= fields.deep_view().skip(
                i + 1,
            ));
        }
        let field = &fields[i];
        if str_eq(field.key.as_str(), "allow-unused-prefixed") {
            match &field.value {
                FieldValue::Bool(b) => {
                    cfg.allow_unused_prefixed = *b;
                },
                _ => {
                    return Err("allow-unused-prefixed expects a boolean".to_owned());
                },
            }
        } else if str_eq(field.key.as_str(), "prefix") {
            match &field.value {
                FieldValue::Str(s) => {
                    cfg.prefix = s.clone();
                },
                _ => {
                    return Err("prefix expects a string".to_owned());
                },
            }
        } else {
            return Err("unrecognized setting".to_owned());
        }
        i += 1;
    }
    proof {
        assert(fields.deep_view().skip(fields@.len() as int) =~= Seq::<SettingsFieldView>::empty());
    }
    Ok(cfg)
}

/// Builds one check from its settings entry: deserializes the entry
/// into the check's settings, then lets the check validate them. The
/// error carries the stage (`false`: deserialize, `true`: validation)
/// and the cause.
pub fn build_check(kind: CheckKind, entry: Option<SettingsValue>) -> (r: Result<
    BuiltinCheck,
    (bool, String),
>)
    ensures
        match r {
            Ok(check) => spec_build_check(kind, entry.deep_view()) == Ok::<
                BuiltinCheckView,
                (bool, Seq<char>),
            >(check@),
            Err(e) => spec_build_check(kind, entry.deep_view()) == Err::<
                BuiltinCheckView,
                (bool, Seq<char>),
            >((e.0, e.1@)),
        },
{
    let is_unused = match kind {
        CheckKind::UnusedVariable => true,
        _ => false,
    };
    if is_unused {
        let cfg: UnusedVariableConfig = match entry {
            None => UnusedVariableConfig { allow_unused_prefixed: true, prefix: "_".to_owned() },
            Some(SettingsValue::Table(fields)) => match parse_unused_fields(&fields) {
                Ok(cfg) => cfg,
                Err(e) => {
                    return Err((false, e));
                },
            },
            Some(_) => {
                return Err((false, "settings must be a table".to_owned()));
            },
        };
        if cfg.prefix.as_str().unicode_len() == 0 {
            return Err((true, "prefix must not be empty".to_owned()));
        }
        Ok(BuiltinCheck { kind, config: CheckConfig::UnusedVariable(cfg) })
    } else {
        match entry {
            None => Ok(BuiltinCheck { kind, config: CheckConfig::Plain }),
            Some(SettingsValue::Table(fields)) => {
                if fields.len() == 0 {
                    Ok(BuiltinCheck { kind, config: CheckConfig::Plain })
                } else {
                    Err((false, "this check takes no settings".to_owned()))
                }
            },
            Some(_) => Err((false, "settings must be a table".to_owned())),
        }
    }
}

/// The diagnostic the unused-variable check reports for one unused
/// local.
pub open spec fn spec_unused_diag(name: Seq<char>, span: crate::ast::Span) -> DiagnosticView {
    DiagnosticView {
        code: "unused_variable"@,
        message: "unused variable: "@ + name,
        primary_label: Label { start: span.start, end: span.end },
        secondary_labels: Seq::empty(),
        notes: Seq::empty(),
    }
}

/// What the unused-variable check says of one statement: a local
/// declaration whose name the file never reads is reported, unless the
/// prefix allowance covers it.
pub open spec fn spec_unused_report(
    cfg: UnusedVariableConfigView,
    stmt: StmtView,
    reads: Seq<Seq<char>>,
) -> Seq<DiagnosticView> {
    match stmt {
        StmtView::LocalDecl { name, span } => {
            if !spec_contains_str(reads, name) && !(cfg.allow_unused_prefixed && spec_has_prefix(
                name,
                cfg.prefix,
            )) {
                seq![spec_unused_diag(name, span)]
            } else {
                Seq::empty()
            }
        },
        _ => Seq::empty(),
    }
}

/// The unused-variable pass over a whole file, in statement order.
pub open spec fn spec_unused_pass(
    cfg: UnusedVariableConfigView,
    stmts: Seq<StmtView>,
    reads: Seq<Seq<char>>,
) -> Seq<DiagnosticView>
    decreases stmts.len(),
{
    if stmts.len() == 0 {
        Seq::empty()
    } else {
        spec_unused_pass(cfg, stmts.drop_last(), reads) + spec_unused_report(
            cfg,
            stmts.last(),
            reads,
        )
    }
}

/// The diagnostic the global-usage check reports for one assignment to
/// a global the standard-library profile does not know.
pub open spec fn spec_global_diag(name: Seq<char>, span: crate::ast::Span) -> DiagnosticView {
    DiagnosticView {
        code: "global_usage"@,
        message: "use of undefined global: "@ + name,
        primary_label: Label { start: span.start, end: span.end },
        secondary_labels: Seq::empty(),
        notes: Seq::empty(),
    }
}

/// What the global-usage check says of one statement.
pub open spec fn spec_global_report(stmt: StmtView, globals: Seq<Seq<char>>) -> Seq<
    DiagnosticView,
> {
    match stmt {
        StmtView::GlobalAssign { name, span } => {
            if !spec_contains_str(globals, name) {
                seq![spec_global_diag(name, span)]
            } else {
                Seq::empty()
            }
        },
        _ => Seq::empty(),
    }
}

/// The global-usage pass over a whole file, in statement order.
pub open spec fn spec_global_pass(stmts: Seq<StmtView>, globals: Seq<Seq<char>>) -> Seq<
    DiagnosticView,
>
    decreases stmts.len(),
{
    if stmts.len() == 0 {
        Seq::empty()
    } else {
        spec_global_pass(stmts.drop_last(), globals) + spec_global_report(stmts.last(), globals)
    }
}

/// What one built-in check reports on one file: its pass over the tree,
/// read-only over the shared context and facts. Checks whose patterns
/// concern syntax the modeled tree does not carry report nothing.
pub open spec fn spec_check_pass(
    check: BuiltinCheckView,
    ast: AstView,
    ctx: ContextView,
    actx: AstContextView,
) -> Seq<DiagnosticView> {
    match check.kind {
        CheckKind::UnusedVariable => match check.config {
            CheckConfigView::UnusedVariable(cfg) => spec_unused_pass(
                cfg,
                ast.stmts,
                actx.read_names,
            ),
            _ => Seq::empty(),
        },
        CheckKind::GlobalUsage => spec_global_pass(ast.stmts, ctx.standard_library.globals),
        _ => Seq::empty(),
    }
}

fn unused_pass(cfg: &UnusedVariableConfig, ast: &Ast, actx: &AstContext) -> (r: Vec<Diagnostic>)
    ensures
        r.deep_view() == spec_unused_pass(cfg@, ast@.stmts, actx@.read_names),
{
    let mut out: Vec<Diagnostic> = Vec::new();
    proof {
        assert(out.deep_view() =~= Seq::<DiagnosticView>::empty());
        assert(ast.stmts.deep_view().take(0) =~= Seq::<StmtView>::empty());
    }
    let mut i: usize = 0;
    while i < ast.stmts.len()
        invariant
            0 <= i <= ast.stmts@.len(),
            ast.stmts.deep_view().len() == ast.stmts@.len(),
            out.deep_view() == spec_unused_pass(
                cfg@,
                ast.stmts.deep_view().take(i as int),
                actx@.read_names,
            ),
        decreases ast.stmts@.len() - i,
    {
        proof {
            assert(ast.stmts.deep_view().take(i + 1).drop_last() =~= ast.stmts.deep_view().take(
                i as int,
            ));
            assert(ast.stmts.deep_view().take(i + 1).last() == ast.stmts[i as int]@);
        }
        let ghost prev = out.deep_view();
        match &ast.stmts[i] {
            crate::ast::Stmt::LocalDecl { name, span } => {
                let is_read = contains_name(&actx.read_names, name.as_str());
                let allowed = cfg.allow_unused_prefixed && has_prefix(
                    name.as_str(),
                    cfg.prefix.as_str(),
                );
                if !is_read && !allowed {
                    let d = Diagnostic::new(
                        "unused_variable".to_owned(),
                        "unused variable: ".to_owned().concat(name.as_str()),
                        Label { start: span.start, end: span.end },
                    );
                    proof {
                        assert(d@ == spec_unused_diag(name@, *span));
                    }
                    out.push(d);
                    proof {
                        assert(out.deep_view() =~= prev.push(spec_unused_diag(name@, *span)));
                    }
                }
            },
            _ => {},
        }
        proof {
            assert(out.deep_view() =~= spec_unused_pass(
                cfg@,
                ast.stmts.deep_view().take(i + 1),
                actx@.read_names,
            ));
        }
        i += 1;
    }
    proof {
        assert(ast.stmts.deep_view().take(ast.stmts@.len() as int) =~= ast.stmts.deep_view());
    }
    out
}

fn global_pass(ast: &Ast, context: &Context) -> (r: Vec<Diagnostic>)
    ensures
        r.deep_view() == spec_global_pass(ast@.stmts, context@.standard_library.globals),
{
    let mut out: Vec<Diagnostic> = Vec::new();
    proof {
        assert(out.deep_view() =~= Seq::<DiagnosticView>::empty());
        assert(ast.stmts.deep_view().take(0) =~= Seq::<StmtView>::empty());
    }
    let mut i: usize = 0;
    while i < ast.stmts.len()
        invariant
            0 <= i <= ast.stmts@.len(),
            ast.stmts.deep_view().len() == ast.stmts@.len(),
            out.deep_view() == spec_global_pass(
                ast.stmts.deep_view().take(i as int),
                context@.standard_library.globals,
            ),
        decreases ast.stmts@.len() - i,
    {
        proof {
            assert(ast.stmts.deep_view().take(i + 1).drop_last() =~= ast.stmts.deep_view().take(
                i as int,
            ));
            assert(ast.stmts.deep_view().take(i + 1).last() == ast.stmts[i as int]@);
        }
        let ghost prev = out.deep_view();
        match &ast.stmts[i] {
            crate::ast::Stmt::GlobalAssign { name, span } => {
                let known = contains_name(&context.standard_library.globals, name.as_str());
                if !known {
                    let d = Diagnostic::new(
                        "global_usage".to_owned(),
                        "use of undefined global: ".to_owned().concat(name.as_str()),
                        Label { start: span.start, end: span.end },
                    );
                    proof {
                        assert(d@ == spec_global_diag(name@, *span));
                    }
                    out.push(d);
                    proof {
                        assert(out.deep_view() =~= prev.push(spec_global_diag(name@, *span)));
                    }
                }
            },
            _ => {},
        }
        proof {
            assert(out.deep_view() =~= spec_global_pass(
                ast.stmts.deep_view().take(i + 1),
                context@.standard_library.globals,
            ));
        }
        i += 1;
    }
    proof {
        assert(ast.stmts.deep_view().take(ast.stmts@.len() as int) =~= ast.stmts.deep_view());
    }
    out
}

/// Runs one built-in check on one file, read-only over the shared
/// context and the per-file facts.
pub fn run_check(check: &BuiltinCheck, ast: &Ast, context: &Context, ast_context: &AstContext) -> (r:
    Vec<Diagnostic>)
    ensures
        r.deep_view() == spec_check_pass(check@, ast@, context@, ast_context@),
{
    match check.kind {
        CheckKind::UnusedVariable => {
            match &check.config {
                CheckConfig::UnusedVariable(cfg) => unused_pass(cfg, ast, ast_context),
                _ => {
                    let r: Vec<Diagnostic> = Vec::new();
                    proof {
                        assert(r.deep_view() =~= Seq::<DiagnosticView>::empty());
                    }
                    r
                },
            }
        },
        CheckKind::GlobalUsage => global_pass(ast, context),
        _ => {
            let r: Vec<Diagnostic> = Vec::new();
            proof {
                assert(r.deep_view() =~= Seq::<DiagnosticView>::empty());
            }
            r
        },
    }
}

} // verus!
