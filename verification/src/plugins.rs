//! The plugin subsystem: user-declared scripted checks.
//!
//! The scripting runtime itself (loading a script from disk, sandboxing
//! it, executing it) lives behind the [`Plugin`] trait, which the host
//! implements; the engine owns everything around it: fail-fast loading
//! during construction, the per-file bridged view of the tree, the
//! one-plugin-at-a-time execution order, failure isolation, and
//! severity resolution by the plugin's full name.

use crate::ast::Ast;
use crate::rules::AstContext;
use crate::rules::Context;
use crate::rules::Diagnostic;
use crate::rules::Severity;
use vstd::prelude::*;
use vstd::string::StringExecFns;

verus! {

/// One plugin's descriptor from the configuration: where its source
/// lives and the name it reports under.
#[derive(Debug)]
pub struct PluginConfig {
    pub source: String,
    pub name: String,
}

/// Mathematical image of a [`PluginConfig`].
pub struct PluginConfigView {
    pub source: Seq<char>,
    pub name: Seq<char>,
}

impl View for PluginConfig {
    type V = PluginConfigView;

    open spec fn view(&self) -> PluginConfigView {
        PluginConfigView { source: self.source@, name: self.name@ }
    }
}

impl DeepView for PluginConfig {
    type V = PluginConfigView;

    open spec fn deep_view(&self) -> PluginConfigView {
        self@
    }
}

/// A plugin's resolved full name: its declared name under a namespace
/// prefix that keeps it apart from the built-in checks. Severity
/// overrides and suppression directives address the plugin by this
/// name.
pub open spec fn spec_full_name(name: Seq<char>) -> Seq<char> {
    "plugin_"@ + name
}

pub fn full_name_for(config: &PluginConfig) -> (r: String)
    ensures
        r@ == spec_full_name(config@.name),
{
    "plugin_".to_owned().concat(config.name.as_str())
}

/// The per-file bridged view of the tree that scripted checks consume.
///
/// It is built at most once per file, and only when at least one plugin
/// is configured; every plugin invocation for the file is then handed
/// this one instance in turn — the pipeline calls one plugin at a time,
/// which keeps access to it mutually exclusive.
pub struct BridgedAst<'a> {
    pub ast: &'a Ast,
}

impl<'a> BridgedAst<'a> {
    /// Translates one file's tree into the bridged representation.
    pub fn from_ast(ast: &'a Ast) -> (r: BridgedAst<'a>)
        ensures
            r.ast == ast,
    {
        BridgedAst { ast }
    }
}

/// Builds the bridged view of the tree exactly when plugins are
/// configured: with none, no bridged representation is constructed for
/// the file at all.
pub fn bridge_for<'a>(plugin_count: usize, ast: &'a Ast) -> (r: Option<BridgedAst<'a>>)
    ensures
        match r {
            Some(b) => plugin_count > 0 && b.ast == ast,
            None => plugin_count == 0,
        },
{
    if plugin_count == 0 {
        None
    } else {
        Some(BridgedAst::from_ast(ast))
    }
}

/// The interface a scripted check is held to: the host loads it from
/// its descriptor and runs it against the bridged tree plus the same
/// context and per-file facts the built-in checks get. A run returns
/// raw diagnostics or fails with a runtime error description; the
/// engine states what holds of the result whichever of the two comes
/// back.
pub trait Plugin: Sized {
    /// Loads and sandbox-initializes the scripted check, returning it
    /// together with its declared default severity, or the cause of
    /// the load failure.
    fn load(config: &PluginConfig) -> Result<(Self, Severity), String>;

    /// Runs the scripted check over one file.
    fn run(&self, bridged: &BridgedAst, context: &Context, ast_context: &AstContext) -> Result<
        Vec<Diagnostic>,
        String,
    >;
}

/// One loaded plugin: the engine-owned descriptor data beside the
/// host's loaded script.
pub struct LoadedPlugin<P> {
    pub full_name: String,
    pub severity: Severity,
    pub plugin: P,
}

/// The built-in stand-in for hosts that configure no plugin runtime:
/// it refuses to load anything, so an engine built with it accepts only
/// configurations with an empty plugin list.
pub struct NoPlugin {}

impl Plugin for NoPlugin {
    fn load(config: &PluginConfig) -> Result<(Self, Severity), String> {
        Err("no plugin runtime is available".to_owned())
    }

    fn run(&self, bridged: &BridgedAst, context: &Context, ast_context: &AstContext) -> Result<
        Vec<Diagnostic>,
        String,
    > {
        Ok(Vec::new())
    }
}

} // verus!
