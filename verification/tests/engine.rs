use selene_lib::ast::Ast;
use selene_lib::ast::Comment;
use selene_lib::ast::Span;
use selene_lib::ast::Stmt;
use selene_lib::plugins::bridge_for;
use selene_lib::plugins::BridgedAst;
use selene_lib::plugins::NoPlugin;
use selene_lib::plugins::Plugin;
use selene_lib::plugins::PluginConfig;
use selene_lib::registry::ConfigEntry;
use selene_lib::registry::FieldValue;
use selene_lib::registry::SettingsField;
use selene_lib::registry::SettingsValue;
use selene_lib::rule_exists;
use selene_lib::rules::AstContext;
use selene_lib::rules::Context;
use selene_lib::rules::Diagnostic;
use selene_lib::rules::Label;
use selene_lib::rules::StandardLibrary;
use selene_lib::Checker;
use selene_lib::CheckerConfig;
use selene_lib::CheckerDiagnostic;
use selene_lib::CheckerError;
use selene_lib::RuleOverride;
use selene_lib::RuleVariation;
use selene_lib::Severity;

fn empty_config() -> CheckerConfig {
    CheckerConfig {
        config: Vec::new(),
        plugins: Vec::new(),
        rules: Vec::new(),
        std: String::new(),
        roblox_std_source: Default::default(),
    }
}

fn one_line_ast(stmts: Vec<Stmt>) -> Ast {
    Ast {
        stmts,
        comments: Vec::new(),
        blocks: Vec::new(),
        line_starts: vec![0],
        len_bytes: 100,
    }
}

fn unused_local_ast() -> Ast {
    one_line_ast(vec![Stmt::LocalDecl {
        name: "x".to_string(),
        span: Span { start: 6, end: 7 },
    }])
}

struct FaultyPlugin;

impl Plugin for FaultyPlugin {
    fn load(_config: &PluginConfig) -> Result<(Self, Severity), String> {
        Ok((FaultyPlugin, Severity::Warning))
    }

    fn run(
        &self,
        _bridged: &BridgedAst,
        _context: &Context,
        _ast_context: &AstContext,
    ) -> Result<Vec<Diagnostic>, String> {
        Err("script exploded".to_string())
    }
}

struct PathPlugin;

impl Plugin for PathPlugin {
    fn load(config: &PluginConfig) -> Result<(Self, Severity), String> {
        if config.source.starts_with("present/") {
            Ok((PathPlugin, Severity::Warning))
        } else {
            Err(format!("no such file: {}", config.source))
        }
    }

    fn run(
        &self,
        _bridged: &BridgedAst,
        _context: &Context,
        _ast_context: &AstContext,
    ) -> Result<Vec<Diagnostic>, String> {
        Ok(Vec::new())
    }
}

struct NoisyPlugin;

impl Plugin for NoisyPlugin {
    fn load(_config: &PluginConfig) -> Result<(Self, Severity), String> {
        Ok((NoisyPlugin, Severity::Warning))
    }

    fn run(
        &self,
        _bridged: &BridgedAst,
        _context: &Context,
        _ast_context: &AstContext,
    ) -> Result<Vec<Diagnostic>, String> {
        Ok(vec![Diagnostic::new(
            "plugin_noisy".to_string(),
            "noise".to_string(),
            Label::new((1, 2)),
        )])
    }
}

fn same_output(a: &[CheckerDiagnostic], b: &[CheckerDiagnostic]) -> bool {
    a.len() == b.len()
        && a.iter().zip(b.iter()).all(|(x, y)| {
            x.diagnostic.code == y.diagnostic.code
                && x.diagnostic.message == y.diagnostic.message
                && x.diagnostic.primary_label == y.diagnostic.primary_label
                && x.severity == y.severity
        })
}

#[test]
fn scenario_unused_local_with_deny_override() {
    let mut config = empty_config();
    config.rules.push(RuleOverride {
        name: "unused_variable".to_string(),
        variation: RuleVariation::Deny,
    });
    let checker = Checker::<NoPlugin>::new(config, StandardLibrary::empty()).unwrap();
    let out = checker.test_on(&unused_local_ast());
    assert_eq!(out.len(), 1);
    assert_eq!(out[0].diagnostic.code, "unused_variable");
    assert_eq!(out[0].severity, Severity::Error);
}

#[test]
fn unused_local_reports_at_compiled_default() {
    let checker = Checker::<NoPlugin>::new(empty_config(), StandardLibrary::empty()).unwrap();
    let out = checker.test_on(&unused_local_ast());
    assert_eq!(out.len(), 1);
    assert_eq!(out[0].severity, Severity::Warning);
    assert_eq!(out[0].diagnostic.message, "unused variable: x");
}

#[test]
fn repeated_runs_agree() {
    let checker = Checker::<NoPlugin>::new(empty_config(), StandardLibrary::empty()).unwrap();
    let ast = one_line_ast(vec![
        Stmt::LocalDecl {
            name: "a".to_string(),
            span: Span { start: 6, end: 7 },
        },
        Stmt::GlobalAssign {
            name: "g".to_string(),
            span: Span { start: 10, end: 11 },
        },
    ]);
    let first = checker.test_on(&ast);
    let second = checker.test_on(&ast);
    assert!(same_output(&first, &second));
    assert_eq!(first.len(), 2);
}

#[test]
fn underscore_prefixed_local_is_allowed() {
    let checker = Checker::<NoPlugin>::new(empty_config(), StandardLibrary::empty()).unwrap();
    let ast = one_line_ast(vec![Stmt::LocalDecl {
        name: "_tmp".to_string(),
        span: Span { start: 6, end: 10 },
    }]);
    assert!(checker.test_on(&ast).is_empty());
}

#[test]
fn prefix_allowance_can_be_switched_off() {
    let mut config = empty_config();
    config.config.push(ConfigEntry {
        name: "unused_variable".to_string(),
        settings: SettingsValue::Table(vec![SettingsField {
            key: "allow-unused-prefixed".to_string(),
            value: FieldValue::Bool(false),
        }]),
    });
    let checker = Checker::<NoPlugin>::new(config, StandardLibrary::empty()).unwrap();
    let ast = one_line_ast(vec![Stmt::LocalDecl {
        name: "_tmp".to_string(),
        span: Span { start: 6, end: 10 },
    }]);
    let out = checker.test_on(&ast);
    assert_eq!(out.len(), 1);
    assert_eq!(out[0].diagnostic.code, "unused_variable");
}

#[test]
fn read_local_is_not_reported() {
    let checker = Checker::<NoPlugin>::new(empty_config(), StandardLibrary::empty()).unwrap();
    let ast = one_line_ast(vec![
        Stmt::LocalDecl {
            name: "x".to_string(),
            span: Span { start: 6, end: 7 },
        },
        Stmt::Read {
            name: "x".to_string(),
            span: Span { start: 20, end: 21 },
        },
    ]);
    assert!(checker.test_on(&ast).is_empty());
}

#[test]
fn known_global_is_not_reported() {
    let std_lib = StandardLibrary {
        name: "lua51".to_string(),
        globals: vec!["print".to_string()],
    };
    let checker = Checker::<NoPlugin>::new(empty_config(), std_lib).unwrap();
    let ast = one_line_ast(vec![Stmt::GlobalAssign {
        name: "print".to_string(),
        span: Span { start: 0, end: 5 },
    }]);
    assert!(checker.test_on(&ast).is_empty());
}

#[test]
fn directive_on_previous_line_suppresses_global_usage() {
    let checker = Checker::<NoPlugin>::new(empty_config(), StandardLibrary::empty()).unwrap();
    let ast = Ast {
        stmts: vec![Stmt::GlobalAssign {
            name: "foo".to_string(),
            span: Span { start: 30, end: 33 },
        }],
        comments: vec![Comment {
            text: "lint: allow-next-line global_usage".to_string(),
            start: 0,
            line: 0,
        }],
        blocks: Vec::new(),
        line_starts: vec![0, 30, 60],
        len_bytes: 90,
    };
    assert!(checker.test_on(&ast).is_empty());
}

#[test]
fn wildcard_block_directive_suppresses_everything_in_scope() {
    let checker = Checker::<NoPlugin>::new(empty_config(), StandardLibrary::empty()).unwrap();
    let ast = Ast {
        stmts: vec![Stmt::GlobalAssign {
            name: "foo".to_string(),
            span: Span { start: 20, end: 23 },
        }],
        comments: vec![Comment {
            text: "lint: allow *".to_string(),
            start: 10,
            line: 0,
        }],
        blocks: vec![Span { start: 5, end: 50 }],
        line_starts: vec![0],
        len_bytes: 100,
    };
    assert!(checker.test_on(&ast).is_empty());
}

#[test]
fn file_directive_suppresses_across_the_whole_file() {
    let checker = Checker::<NoPlugin>::new(empty_config(), StandardLibrary::empty()).unwrap();
    let ast = Ast {
        stmts: vec![Stmt::LocalDecl {
            name: "x".to_string(),
            span: Span { start: 90, end: 91 },
        }],
        comments: vec![Comment {
            text: "lint: allow-file unused_variable".to_string(),
            start: 0,
            line: 0,
        }],
        blocks: Vec::new(),
        line_starts: vec![0],
        len_bytes: 100,
    };
    assert!(checker.test_on(&ast).is_empty());
}

#[test]
fn directive_with_unknown_name_reports_one_filter_diagnostic() {
    let checker = Checker::<NoPlugin>::new(empty_config(), StandardLibrary::empty()).unwrap();
    let ast = Ast {
        stmts: Vec::new(),
        comments: vec![Comment {
            text: "lint: allow nonexistent_check".to_string(),
            start: 0,
            line: 0,
        }],
        blocks: Vec::new(),
        line_starts: vec![0],
        len_bytes: 50,
    };
    let out = checker.test_on(&ast);
    assert_eq!(out.len(), 1);
    assert_eq!(out[0].diagnostic.code, "invalid_lint_filter");
    assert_eq!(out[0].diagnostic.message, "unknown lint name");
    assert_eq!(out[0].severity, Severity::Warning);
}

#[test]
fn malformed_directive_reports_one_filter_diagnostic() {
    let checker = Checker::<NoPlugin>::new(empty_config(), StandardLibrary::empty()).unwrap();
    let ast = Ast {
        stmts: Vec::new(),
        comments: vec![Comment {
            text: "lint: allow".to_string(),
            start: 0,
            line: 0,
        }],
        blocks: Vec::new(),
        line_starts: vec![0],
        len_bytes: 50,
    };
    let out = checker.test_on(&ast);
    assert_eq!(out.len(), 1);
    assert_eq!(out[0].diagnostic.message, "malformed lint filter directive");
}

#[test]
fn ordinary_comment_is_no_directive() {
    let checker = Checker::<NoPlugin>::new(empty_config(), StandardLibrary::empty()).unwrap();
    let ast = Ast {
        stmts: Vec::new(),
        comments: vec![Comment {
            text: "just a note".to_string(),
            start: 0,
            line: 0,
        }],
        blocks: Vec::new(),
        line_starts: vec![0],
        len_bytes: 50,
    };
    assert!(checker.test_on(&ast).is_empty());
}

#[test]
fn faulty_plugin_yields_one_error_and_spares_builtins() {
    let mut config = empty_config();
    config.plugins.push(PluginConfig {
        source: "boom.lua".to_string(),
        name: "boom".to_string(),
    });
    let checker = Checker::<FaultyPlugin>::new(config, StandardLibrary::empty()).unwrap();
    let out = checker.test_on(&unused_local_ast());
    assert_eq!(out.len(), 2);
    assert_eq!(out[0].diagnostic.code, "unused_variable");
    assert_eq!(out[1].diagnostic.code, "plugin_boom");
    assert_eq!(out[1].severity, Severity::Error);
    assert_eq!(
        out[1].diagnostic.message,
        "error running plugin: script exploded"
    );
}

#[test]
fn plugin_severity_follows_override() {
    let mut config = empty_config();
    config.plugins.push(PluginConfig {
        source: "present/noisy.lua".to_string(),
        name: "noisy".to_string(),
    });
    config.rules.push(RuleOverride {
        name: "plugin_noisy".to_string(),
        variation: RuleVariation::Deny,
    });
    let checker = Checker::<NoisyPlugin>::new(config, StandardLibrary::empty()).unwrap();
    let out = checker.test_on(&one_line_ast(Vec::new()));
    assert_eq!(out.len(), 1);
    assert_eq!(out[0].diagnostic.code, "plugin_noisy");
    assert_eq!(out[0].severity, Severity::Error);
}

#[test]
fn no_plugins_build_no_bridge() {
    let ast = one_line_ast(Vec::new());
    assert!(bridge_for(0, &ast).is_none());
    assert!(bridge_for(2, &ast).is_some());
}

#[test]
fn missing_plugin_source_fails_construction() {
    let mut config = empty_config();
    config.plugins.push(PluginConfig {
        source: "missing/check.lua".to_string(),
        name: "ghost".to_string(),
    });
    let err = match Checker::<PathPlugin>::new(config, StandardLibrary::empty()) {
        Err(e) => e,
        Ok(_) => panic!("construction should have failed"),
    };
    match err {
        CheckerError::InvalidPlugin { problem } => {
            assert_eq!(problem, "no such file: missing/check.lua");
        }
        other => panic!("wrong error: {}", other.to_message()),
    }
}

#[test]
fn wrongly_shaped_settings_fail_deserialization() {
    let mut config = empty_config();
    config.config.push(ConfigEntry {
        name: "unused_variable".to_string(),
        settings: SettingsValue::Bool(true),
    });
    let err = match Checker::<NoPlugin>::new(config, StandardLibrary::empty()) {
        Err(e) => e,
        Ok(_) => panic!("construction should have failed"),
    };
    match err {
        CheckerError::ConfigDeserializeError { name, problem } => {
            assert_eq!(name, "unused_variable");
            assert_eq!(problem, "settings must be a table");
        }
        other => panic!("wrong error: {}", other.to_message()),
    }
}

#[test]
fn empty_prefix_is_rejected_by_the_check() {
    let mut config = empty_config();
    config.config.push(ConfigEntry {
        name: "unused_variable".to_string(),
        settings: SettingsValue::Table(vec![SettingsField {
            key: "prefix".to_string(),
            value: FieldValue::Str(String::new()),
        }]),
    });
    let err = match Checker::<NoPlugin>::new(config, StandardLibrary::empty()) {
        Err(e) => e,
        Ok(_) => panic!("construction should have failed"),
    };
    match err {
        CheckerError::RuleNewError { name, problem } => {
            assert_eq!(name, "unused_variable");
            assert_eq!(problem, "prefix must not be empty");
        }
        other => panic!("wrong error: {}", other.to_message()),
    }
}

#[test]
fn first_failing_check_in_registry_order_is_reported() {
    let mut config = empty_config();
    config.config.push(ConfigEntry {
        name: "unused_variable".to_string(),
        settings: SettingsValue::Bool(true),
    });
    config.config.push(ConfigEntry {
        name: "almost_swapped".to_string(),
        settings: SettingsValue::Bool(true),
    });
    let err = match Checker::<NoPlugin>::new(config, StandardLibrary::empty()) {
        Err(e) => e,
        Ok(_) => panic!("construction should have failed"),
    };
    match err {
        CheckerError::ConfigDeserializeError { name, .. } => {
            assert_eq!(name, "almost_swapped");
        }
        other => panic!("wrong error: {}", other.to_message()),
    }
}

#[test]
fn settings_entries_are_consumed_once() {
    let mut config = empty_config();
    config.config.push(ConfigEntry {
        name: "unused_variable".to_string(),
        settings: SettingsValue::Table(Vec::new()),
    });
    config.config.push(ConfigEntry {
        name: "custom_thing".to_string(),
        settings: SettingsValue::Bool(true),
    });
    let checker = Checker::<NoPlugin>::new(config, StandardLibrary::empty()).unwrap();
    assert_eq!(checker.config.config.len(), 1);
    assert_eq!(checker.config.config[0].name, "custom_thing");
}

#[test]
fn std_selection_sets_the_context_flag() {
    let mut config = empty_config();
    config.std = "lua51".to_string();
    let with_std = Checker::<NoPlugin>::new(config, StandardLibrary::empty()).unwrap();
    assert!(with_std.context.standard_library_is_set);
    let without = Checker::<NoPlugin>::new(empty_config(), StandardLibrary::empty()).unwrap();
    assert!(!without.context.standard_library_is_set);
}

#[test]
fn variation_to_severity_mapping() {
    assert_eq!(RuleVariation::Allow.to_severity(), Severity::Allow);
    assert_eq!(RuleVariation::Deny.to_severity(), Severity::Error);
    assert_eq!(RuleVariation::Warn.to_severity(), Severity::Warning);
}

#[test]
fn rule_exists_knows_the_base_registry() {
    assert!(rule_exists("unused_variable"));
    assert!(rule_exists("almost_swapped"));
    assert!(rule_exists("invalid_lint_filter"));
    assert!(!rule_exists("made_up_check"));
    assert!(!rule_exists(""));
    assert!(!rule_exists("roblox_incorrect_roact_usage"));
}

#[test]
fn roblox_rows_register_behind_the_capability_flag() {
    let checker =
        Checker::<NoPlugin>::with_capabilities(empty_config(), StandardLibrary::empty(), true)
            .unwrap();
    assert_eq!(checker.checks.len(), 26);
    let base = Checker::<NoPlugin>::new(empty_config(), StandardLibrary::empty()).unwrap();
    assert_eq!(base.checks.len(), 24);
}

#[test]
fn absolutize_paths_resolves_relative_sources() {
    let mut config = empty_config();
    config.plugins.push(PluginConfig {
        source: "checks/a.lua".to_string(),
        name: "a".to_string(),
    });
    config.plugins.push(PluginConfig {
        source: "/abs/b.lua".to_string(),
        name: "b".to_string(),
    });
    config.absolutize_paths("/project/root");
    assert_eq!(config.plugins[0].source, "/project/root/checks/a.lua");
    assert_eq!(config.plugins[1].source, "/abs/b.lua");
}

#[test]
fn get_lint_severity_prefers_the_override() {
    let mut config = empty_config();
    config.rules.push(RuleOverride {
        name: "global_usage".to_string(),
        variation: RuleVariation::Warn,
    });
    let checker = Checker::<NoPlugin>::new(config, StandardLibrary::empty()).unwrap();
    assert_eq!(
        checker.get_lint_severity("global_usage", Severity::Error),
        Severity::Warning
    );
    assert_eq!(
        checker.get_lint_severity("unseen_unit", Severity::Error),
        Severity::Error
    );
}

#[test]
fn error_messages_name_the_failing_unit() {
    let e = CheckerError::ConfigDeserializeError {
        name: "unused_variable".to_string(),
        problem: "settings must be a table".to_string(),
    };
    assert_eq!(
        e.to_message(),
        "[unused_variable] Configuration was incorrectly formatted: settings must be a table"
    );
    let e = CheckerError::RuleNewError {
        name: "unused_variable".to_string(),
        problem: "prefix must not be empty".to_string(),
    };
    assert_eq!(e.to_message(), "[unused_variable] prefix must not be empty");
    let e = CheckerError::InvalidPlugin {
        problem: "no such file".to_string(),
    };
    assert_eq!(e.to_message(), "Couldn't load plugin: no such file");
}

#[test]
fn allow_override_keeps_diagnostics_but_silences_them() {
    let mut config = empty_config();
    config.rules.push(RuleOverride {
        name: "unused_variable".to_string(),
        variation: RuleVariation::Allow,
    });
    let checker = Checker::<NoPlugin>::new(config, StandardLibrary::empty()).unwrap();
    let out = checker.test_on(&unused_local_ast());
    assert_eq!(out.len(), 1);
    assert_eq!(out[0].severity, Severity::Allow);
}

#[test]
fn duplicate_settings_entries_consume_only_the_first() {
    let mut config = empty_config();
    config.config.push(ConfigEntry {
        name: "unused_variable".to_string(),
        settings: SettingsValue::Table(Vec::new()),
    });
    config.config.push(ConfigEntry {
        name: "unused_variable".to_string(),
        settings: SettingsValue::Bool(true),
    });
    let checker = Checker::<NoPlugin>::new(config, StandardLibrary::empty()).unwrap();
    assert_eq!(checker.config.config.len(), 1);
    assert_eq!(checker.config.config[0].name, "unused_variable");
}

#[test]
fn default_configuration_is_empty() {
    let config = CheckerConfig::default();
    assert!(config.config.is_empty());
    assert!(config.plugins.is_empty());
    assert!(config.rules.is_empty());
    assert!(config.std.is_empty());
    let checker = Checker::<NoPlugin>::new(config, StandardLibrary::empty()).unwrap();
    assert!(checker.test_on(&one_line_ast(Vec::new())).is_empty());
}

#[test]
fn empty_file_yields_no_diagnostics() {
    let checker = Checker::<NoPlugin>::new(empty_config(), StandardLibrary::empty()).unwrap();
    let ast = Ast {
        stmts: Vec::new(),
        comments: Vec::new(),
        blocks: Vec::new(),
        line_starts: vec![0],
        len_bytes: 0,
    };
    assert!(checker.test_on(&ast).is_empty());
}

#[test]
fn directive_on_last_line_has_no_next_line_to_cover() {
    let checker = Checker::<NoPlugin>::new(empty_config(), StandardLibrary::empty()).unwrap();
    let ast = Ast {
        stmts: vec![Stmt::GlobalAssign {
            name: "foo".to_string(),
            span: Span { start: 5, end: 8 },
        }],
        comments: vec![Comment {
            text: "lint: allow-next-line global_usage".to_string(),
            start: 0,
            line: 0,
        }],
        blocks: Vec::new(),
        line_starts: vec![0],
        len_bytes: 50,
    };
    let out = checker.test_on(&ast);
    assert_eq!(out.len(), 1);
    assert_eq!(out[0].diagnostic.code, "global_usage");
}
