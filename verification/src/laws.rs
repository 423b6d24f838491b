//! The engine's laws: properties that relate several of the library's
//! functions, stated over the same spec functions the functions'
//! contracts use.

use crate::ast::AstView;
use crate::lint_filtering::spec_invalid_diags;
use crate::lint_filtering::spec_keep;
use crate::lint_filtering::spec_parse_directive;
use crate::lint_filtering::spec_suppressed;
use crate::lint_filtering::DirectiveView;
use crate::lint_filtering::FilterEntryView;
use crate::ast::CommentView;
use crate::plugins::LoadedPlugin;
use crate::rules::DiagnosticView;
use crate::rules::Severity;
use crate::spec_lookup_variation;
use crate::spec_merge_one;
use crate::spec_merge_plugins;
use crate::spec_pipeline;
use crate::spec_resolved_severity;
use crate::spec_tag;
use crate::Checker;
use crate::CheckerDiagnosticView;
use crate::RuleOverrideView;
use crate::RuleVariation;
use vstd::prelude::*;

verus! {

/// Law: analysis is deterministic. An engine with no plugins is a pure
/// function of the tree and the configuration, so two runs on the same
/// inputs return the identical diagnostic sequence.
pub proof fn lemma_run_deterministic<P>(
    c: &Checker<P>,
    astv: AstView,
    r1: Seq<CheckerDiagnosticView>,
    r2: Seq<CheckerDiagnosticView>,
)
    requires
        c.plugins@.len() == 0,
        r1 == spec_pipeline(c, astv, Seq::<Result<Seq<DiagnosticView>, Seq<char>>>::empty()),
        r2 == spec_pipeline(c, astv, Seq::<Result<Seq<DiagnosticView>, Seq<char>>>::empty()),
    ensures
        r1 == r2,
{
}

/// Law: severity override. Every finding of a unit carries the unit's
/// resolved severity; a `Deny` override makes that severity `Error` for
/// every instance in the run, and with no override for the name the
/// compiled default stands.
pub proof fn lemma_severity_override(
    ds: Seq<DiagnosticView>,
    rules: Seq<RuleOverrideView>,
    name: Seq<char>,
    default: Severity,
)
    ensures
        forall|i: int|
            0 <= i < ds.len() ==> (#[trigger] spec_tag(
                ds,
                spec_resolved_severity(rules, name, default),
            )[i]).severity == spec_resolved_severity(rules, name, default),
        spec_lookup_variation(rules, name) == Some(RuleVariation::Deny)
            ==> spec_resolved_severity(rules, name, default) == Severity::Error,
        spec_lookup_variation(rules, name) is None ==> spec_resolved_severity(rules, name, default)
            == default,
{
}

/// Law: filtering correctness, dropping direction. No diagnostic that a
/// matching suppression entry covers survives the overlay's keep pass.
pub proof fn lemma_suppressed_absent(
    input: Seq<CheckerDiagnosticView>,
    entries: Seq<FilterEntryView>,
)
    ensures
        forall|i: int|
            0 <= i < spec_keep(input, entries).len() ==> !spec_suppressed(
                entries,
                (#[trigger] spec_keep(input, entries)[i]).diagnostic,
            ),
    decreases input.len(),
{
    if input.len() > 0 {
        lemma_suppressed_absent(input.drop_last(), entries);
    }
}

/// Law: filtering correctness, keeping direction. A diagnostic that no
/// suppression entry covers survives the keep pass.
pub proof fn lemma_unsuppressed_present(
    input: Seq<CheckerDiagnosticView>,
    entries: Seq<FilterEntryView>,
    i: int,
)
    requires
        0 <= i < input.len(),
        !spec_suppressed(entries, input[i].diagnostic),
    ensures
        spec_keep(input, entries).contains(input[i]),
    decreases input.len(),
{
    if i == input.len() - 1 {
        assert(spec_keep(input, entries).last() == input[i]);
    } else {
        lemma_unsuppressed_present(input.drop_last(), entries, i);
        let kept = spec_keep(input.drop_last(), entries);
        let j = choose|j: int| 0 <= j < kept.len() && kept[j] == input[i];
        assert(spec_keep(input, entries)[j] == input[i]);
    }
}

/// Law: a malformed directive is not silently ignored — one comment
/// that parses as an invalid directive yields exactly one diagnostic,
/// under the filtering unit's own name.
pub proof fn lemma_invalid_directive_reported(
    cmt: CommentView,
    known: Seq<Seq<char>>,
    astv: AstView,
)
    requires
        spec_parse_directive(cmt, known, astv) is Invalid,
    ensures
        spec_invalid_diags(seq![cmt], known, astv).len() == 1,
        spec_invalid_diags(seq![cmt], known, astv)[0].code == "invalid_lint_filter"@,
{
    let comments = seq![cmt];
    assert(comments.drop_last() =~= Seq::<CommentView>::empty());
    assert(comments.last() == cmt);
    assert(spec_invalid_diags(Seq::<CommentView>::empty(), known, astv) == Seq::<
        DiagnosticView,
    >::empty());
    match spec_parse_directive(cmt, known, astv) {
        DirectiveView::Invalid(problem) => {
            assert(spec_invalid_diags(comments, known, astv) =~= seq![
                crate::lint_filtering::spec_invalid_diag(cmt, problem),
            ]);
        },
        _ => {
            assert(false);
        },
    }
}

/// Law: plugin isolation. A plugin whose run raises a runtime fault
/// contributes exactly one diagnostic: Error severity, the plugin's
/// full name as reporting unit, and the fault text in the message —
/// and nothing else.
pub proof fn lemma_plugin_fault_isolated(
    full_name: Seq<char>,
    declared: Severity,
    rules: Seq<RuleOverrideView>,
    problem: Seq<char>,
)
    ensures
        spec_merge_one(full_name, declared, rules, Err(problem)).len() == 1,
        spec_merge_one(full_name, declared, rules, Err(problem))[0].severity == Severity::Error,
        spec_merge_one(full_name, declared, rules, Err(problem))[0].diagnostic.code == full_name,
        spec_merge_one(full_name, declared, rules, Err(problem))[0].diagnostic.message
            == "error running plugin: "@ + problem,
{
}

/// Law: plugin isolation, the other direction. Whatever any plugin
/// returned, the built-in checks' findings stand unchanged in front of
/// the plugins' contributions before the overlay runs: a broken plugin
/// never removes another unit's finding from the merged accumulator.
pub proof fn lemma_plugins_preserve_builtins<P>(
    plugins: Seq<LoadedPlugin<P>>,
    rules: Seq<RuleOverrideView>,
    outcomes: Seq<Result<Seq<DiagnosticView>, Seq<char>>>,
    base: Seq<CheckerDiagnosticView>,
    n: int,
    i: int,
)
    requires
        0 <= i < base.len(),
        0 <= n,
    ensures
        (base + spec_merge_plugins(plugins, rules, outcomes, n))[i] == base[i],
{
}

} // verus!
