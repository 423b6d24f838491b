//! The filtering overlay: inline suppression directives.
//!
//! A directive is a comment of the form `lint: <scope> <target>`, with
//! `<scope>` one of `allow` (remainder of the current block),
//! `allow-next-line` (the next line) and `allow-file` (the whole file),
//! and `<target>` a check or plugin full name, or the wildcard `*`.
//! The overlay re-scans the tree's comments, builds the scope entries,
//! drops every already accumulated diagnostic whose primary position a
//! matching entry covers, and reports each malformed directive under
//! its own unit's name, `invalid_lint_filter`, at that unit's resolved
//! severity.

use crate::ast::Ast;
use crate::ast::AstView;
use crate::ast::Comment;
use crate::ast::CommentView;
use crate::ast::Span;
use crate::rules::Diagnostic;
use crate::rules::DiagnosticView;
use crate::rules::Label;
use crate::rules::Severity;
use crate::text::spec_contains_str;
use crate::text::str_eq;
use crate::CheckerDiagnostic;
use crate::CheckerDiagnosticView;
use vstd::prelude::*;
use vstd::string::StringExecFns;

verus! {

/// Tokenization state machine: walks the text from position `i` with
/// the token read so far and the tokens already finished.
pub open spec fn spec_tok(s: Seq<char>, i: int, cur: Seq<char>, acc: Seq<Seq<char>>) -> Seq<
    Seq<char>,
>
    decreases s.len() - i,
{
    if i < 0 || i >= s.len() {
        if cur.len() == 0 {
            acc
        } else {
            acc.push(cur)
        }
    } else if s[i] == ' ' {
        if cur.len() == 0 {
            spec_tok(s, i + 1, Seq::empty(), acc)
        } else {
            spec_tok(s, i + 1, Seq::empty(), acc.push(cur))
        }
    } else {
        spec_tok(s, i + 1, cur.push(s[i]), acc)
    }
}

/// A text's space-separated tokens.
pub open spec fn spec_tokenize(s: Seq<char>) -> Seq<Seq<char>> {
    spec_tok(s, 0, Seq::empty(), Seq::empty())
}

/// Splits a text on runs of spaces.
pub fn tokenize(s: &str) -> (r: Vec<String>)
    ensures
        r.deep_view() == spec_tokenize(s@),
{
    let len = s.unicode_len();
    let mut tokens: Vec<String> = Vec::new();
    let mut tok_start: usize = 0;
    let mut in_tok = false;
    proof {
        assert(tokens.deep_view() =~= Seq::<Seq<char>>::empty());
    }
    let mut i: usize = 0;
    while i < len
        invariant
            0 <= i <= len,
            len == s@.len(),
            in_tok ==> tok_start < i,
            spec_tokenize(s@) == spec_tok(
                s@,
                i as int,
                if in_tok {
                    s@.subrange(tok_start as int, i as int)
                } else {
                    Seq::<char>::empty()
                },
                tokens.deep_view(),
            ),
        decreases len - i,
    {
        let c = s.get_char(i);
        if c == ' ' {
            if in_tok {
                let ghost prev = tokens.deep_view();
                let tok = s.substring_char(tok_start, i).to_owned();
                tokens.push(tok);
                in_tok = false;
                proof {
                    assert(tokens.deep_view() =~= prev.push(
                        s@.subrange(tok_start as int, i as int),
                    ));
                }
            }
        } else {
            if !in_tok {
                tok_start = i;
                in_tok = true;
                proof {
                    assert(s@.subrange(i as int, i + 1) =~= Seq::<char>::empty().push(s@[i as int]));
                }
            } else {
                proof {
                    assert(s@.subrange(tok_start as int, i + 1) =~= s@.subrange(
                        tok_start as int,
                        i as int,
                    ).push(s@[i as int]));
                }
            }
        }
        i += 1;
    }
    if in_tok {
        let ghost prev = tokens.deep_view();
        let tok = s.substring_char(tok_start, len).to_owned();
        tokens.push(tok);
        proof {
            assert(tokens.deep_view() =~= prev.push(s@.subrange(tok_start as int, len as int)));
        }
    }
    tokens
}

/// One suppression-scope entry: a byte range and the targeted name
/// (`None` is the wildcard).
#[derive(Debug)]
pub struct FilterEntry {
    pub start: u64,
    pub end: u64,
    pub target: Option<String>,
}

/// Mathematical image of a [`FilterEntry`].
pub struct FilterEntryView {
    pub start: u64,
    pub end: u64,
    pub target: Option<Seq<char>>,
}

impl View for FilterEntry {
    type V = FilterEntryView;

    open spec fn view(&self) -> FilterEntryView {
        FilterEntryView {
            start: self.start,
            end: self.end,
            target: match &self.target {
                Some(t) => Some(t@),
                None => None,
            },
        }
    }
}

impl DeepView for FilterEntry {
    type V = FilterEntryView;

    open spec fn deep_view(&self) -> FilterEntryView {
        self@
    }
}

/// Where the innermost block that contains a position ends; a position
/// outside every block belongs to the whole file.
pub open spec fn spec_block_end(blocks: Seq<Span>, pos: u64, file_end: u64) -> u64
    decreases blocks.len(),
{
    if blocks.len() == 0 {
        file_end
    } else {
        let rest = spec_block_end(blocks.drop_last(), pos, file_end);
        let b = blocks.last();
        if b.spec_contains_pos(pos) && b.end < rest {
            b.end
        } else {
            rest
        }
    }
}

pub fn block_end(blocks: &Vec<Span>, pos: u64, file_end: u64) -> (r: u64)
    ensures
        r == spec_block_end(blocks.deep_view(), pos, file_end),
{
    let mut r = file_end;
    proof {
        assert(blocks.deep_view().take(0) =~= Seq::<Span>::empty());
    }
    let mut i: usize = 0;
    while i < blocks.len()
        invariant
            0 <= i <= blocks@.len(),
            blocks.deep_view().len() == blocks@.len(),
            r == spec_block_end(blocks.deep_view().take(i as int), pos, file_end),
        decreases blocks@.len() - i,
    {
        proof {
            assert(blocks.deep_view().take(i + 1).drop_last() =~= blocks.deep_view().take(i as int));
            assert(blocks.deep_view().take(i + 1).last() == blocks[i as int]);
        }
        let b = blocks[i];
        if b.contains_pos(pos) && b.end < r {
            r = b.end;
        }
        i += 1;
    }
    proof {
        assert(blocks.deep_view().take(blocks@.len() as int) =~= blocks.deep_view());
    }
    r
}

/// What reading one comment yields: not a directive at all, a malformed
/// directive with the cause, or one scope entry.
pub enum Directive {
    NotDirective,
    Invalid(String),
    Entry(FilterEntry),
}

/// Mathematical image of a [`Directive`].
pub enum DirectiveView {
    NotDirective,
    Invalid(Seq<char>),
    Entry(FilterEntryView),
}

impl View for Directive {
    type V = DirectiveView;

    open spec fn view(&self) -> DirectiveView {
        match self {
            Directive::NotDirective => DirectiveView::NotDirective,
            Directive::Invalid(m) => DirectiveView::Invalid(m@),
            Directive::Entry(e) => DirectiveView::Entry(e@),
        }
    }
}

/// The scope range a directive form selects, around one comment.
pub open spec fn spec_scope_range(scope: Seq<char>, cmt: CommentView, ast: AstView) -> (u64, u64) {
    if scope == "allow-file"@ {
        (0u64, ast.len_bytes)
    } else if scope == "allow-next-line"@ {
        if cmt.line + 1 < ast.line_starts.len() {
            (
                ast.line_starts[cmt.line as int + 1],
                if cmt.line + 2 < ast.line_starts.len() {
                    ast.line_starts[cmt.line as int + 2]
                } else {
                    ast.len_bytes
                },
            )
        } else {
            (ast.len_bytes, ast.len_bytes)
        }
    } else {
        (cmt.start, spec_block_end(ast.blocks, cmt.start, ast.len_bytes))
    }
}

/// How one comment reads as a suppression directive against the known
/// unit names.
pub open spec fn spec_parse_directive(
    cmt: CommentView,
    known: Seq<Seq<char>>,
    ast: AstView,
) -> DirectiveView {
    let toks = spec_tokenize(cmt.text);
    if toks.len() == 0 || toks[0] != "lint:"@ {
        DirectiveView::NotDirective
    } else if toks.len() != 3 {
        DirectiveView::Invalid("malformed lint filter directive"@)
    } else if toks[1] != "allow"@ && toks[1] != "allow-next-line"@ && toks[1] != "allow-file"@ {
        DirectiveView::Invalid("unknown lint filter scope"@)
    } else if toks[2] != "*"@ && !spec_contains_str(known, toks[2]) {
        DirectiveView::Invalid("unknown lint name"@)
    } else {
        let range = spec_scope_range(toks[1], cmt, ast);
        DirectiveView::Entry(
            FilterEntryView {
                start: range.0,
                end: range.1,
                target: if toks[2] == "*"@ {
                    None
                } else {
                    Some(toks[2])
                },
            },
        )
    }
}

pub fn parse_directive(cmt: &Comment, known: &Vec<String>, ast: &Ast) -> (r: Directive)
    requires
        ast@.wf(),
        cmt@.line < ast@.line_starts.len(),
    ensures
        r@ == spec_parse_directive(cmt@, known.deep_view(), ast@),
{
    let toks = tokenize(cmt.text.as_str());
    if toks.len() == 0 || !str_eq(toks[0].as_str(), "lint:") {
        return Directive::NotDirective;
    }
    if toks.len() != 3 {
        return Directive::Invalid("malformed lint filter directive".to_owned());
    }
    let scope_allow = str_eq(toks[1].as_str(), "allow");
    let scope_next = str_eq(toks[1].as_str(), "allow-next-line");
    let scope_file = str_eq(toks[1].as_str(), "allow-file");
    if !scope_allow && !scope_next && !scope_file {
        return Directive::Invalid("unknown lint filter scope".to_owned());
    }
    let wildcard = str_eq(toks[2].as_str(), "*");
    if !wildcard && !crate::text::contains_name(known, toks[2].as_str()) {
        return Directive::Invalid("unknown lint name".to_owned());
    }
    let range: (u64, u64) = if scope_file {
        (0u64, ast.len_bytes)
    } else if scope_next {
        let line = cmt.line;
        let total = ast.line_starts.len();
        proof {
            assert(ast@.line_starts.len() == ast.line_starts@.len());
            assert(line < total);
        }
        let next = line + 1;
        if next < ast.line_starts.len() {
            let start = ast.line_starts[next];
            let end = if next + 1 < ast.line_starts.len() {
                ast.line_starts[next + 1]
            } else {
                ast.len_bytes
            };
            (start, end)
        } else {
            (ast.len_bytes, ast.len_bytes)
        }
    } else {
        (cmt.start, block_end(&ast.blocks, cmt.start, ast.len_bytes))
    };
    let target: Option<String> = if wildcard {
        None
    } else {
        Some(toks[2].clone())
    };
    Directive::Entry(FilterEntry { start: range.0, end: range.1, target })
}

/// The scope entries of a file's comments, in comment order.
pub open spec fn spec_entries(
    comments: Seq<CommentView>,
    known: Seq<Seq<char>>,
    ast: AstView,
) -> Seq<FilterEntryView>
    decreases comments.len(),
{
    if comments.len() == 0 {
        Seq::empty()
    } else {
        spec_entries(comments.drop_last(), known, ast) + match spec_parse_directive(
            comments.last(),
            known,
            ast,
        ) {
            DirectiveView::Entry(e) => seq![e],
            _ => Seq::empty(),
        }
    }
}

/// The diagnostic one malformed directive produces, under the filtering
/// unit's own name.
pub open spec fn spec_invalid_diag(cmt: CommentView, problem: Seq<char>) -> DiagnosticView {
    DiagnosticView {
        code: "invalid_lint_filter"@,
        message: problem,
        primary_label: Label { start: cmt.start, end: cmt.start },
        secondary_labels: Seq::empty(),
        notes: Seq::empty(),
    }
}

/// The malformed-directive diagnostics of a file's comments, in comment
/// order.
pub open spec fn spec_invalid_diags(
    comments: Seq<CommentView>,
    known: Seq<Seq<char>>,
    ast: AstView,
) -> Seq<DiagnosticView>
    decreases comments.len(),
{
    if comments.len() == 0 {
        Seq::empty()
    } else {
        spec_invalid_diags(comments.drop_last(), known, ast) + match spec_parse_directive(
            comments.last(),
            known,
            ast,
        ) {
            DirectiveView::Invalid(problem) => seq![spec_invalid_diag(comments.last(), problem)],
            _ => Seq::empty(),
        }
    }
}

/// Whether one entry's scope covers a diagnostic's primary position and
/// its target matches the diagnostic's unit name (by name or by
/// wildcard).
pub open spec fn spec_entry_matches(e: FilterEntryView, d: DiagnosticView) -> bool {
    &&& e.start <= d.primary_label.start < e.end
    &&& match e.target {
        None => true,
        Some(t) => t == d.code,
    }
}

/// Whether some entry suppresses the diagnostic.
pub open spec fn spec_suppressed(entries: Seq<FilterEntryView>, d: DiagnosticView) -> bool {
    exists|i: int| 0 <= i < entries.len() && spec_entry_matches(entries[i], d)
}

/// The diagnostics that survive the scope entries, in their order.
pub open spec fn spec_keep(
    input: Seq<CheckerDiagnosticView>,
    entries: Seq<FilterEntryView>,
) -> Seq<CheckerDiagnosticView>
    decreases input.len(),
{
    if input.len() == 0 {
        Seq::empty()
    } else {
        spec_keep(input.drop_last(), entries) + if spec_suppressed(entries, input.last().diagnostic) {
            Seq::empty()
        } else {
            seq![input.last()]
        }
    }
}

/// What the whole overlay returns: the surviving diagnostics, then one
/// diagnostic per malformed directive, tagged with the filtering unit's
/// resolved severity.
pub open spec fn spec_filter_output(
    ast: AstView,
    input: Seq<CheckerDiagnosticView>,
    known: Seq<Seq<char>>,
    invalid_filter_severity: Severity,
) -> Seq<CheckerDiagnosticView> {
    spec_keep(input, spec_entries(ast.comments, known, ast)) + crate::spec_tag(
        spec_invalid_diags(ast.comments, known, ast),
        invalid_filter_severity,
    )
}

fn suppressed(entries: &Vec<FilterEntry>, d: &Diagnostic) -> (r: bool)
    ensures
        r == spec_suppressed(entries.deep_view(), d@),
{
    let mut i: usize = 0;
    while i < entries.len()
        invariant
            0 <= i <= entries@.len(),
            entries.deep_view().len() == entries@.len(),
            forall|j: int| 0 <= j < i ==> !spec_entry_matches(entries.deep_view()[j], d@),
        decreases entries@.len() - i,
    {
        let e = &entries[i];
        if e.start <= d.primary_label.start && d.primary_label.start < e.end {
            let matches_target = match &e.target {
                None => true,
                Some(t) => str_eq(t.as_str(), d.code.as_str()),
            };
            if matches_target {
                proof {
                    assert(spec_entry_matches(entries.deep_view()[i as int], d@));
                }
                return true;
            }
        }
        i += 1;
    }
    false
}

/// Collects the scope entries and the malformed-directive diagnostics
/// of one file in a single scan over its comments.
fn scan_directives(ast: &Ast, known: &Vec<String>) -> (r: (Vec<FilterEntry>, Vec<Diagnostic>))
    requires
        ast@.wf(),
    ensures
        r.0.deep_view() == spec_entries(ast@.comments, known.deep_view(), ast@),
        r.1.deep_view() == spec_invalid_diags(ast@.comments, known.deep_view(), ast@),
{
    let mut entries: Vec<FilterEntry> = Vec::new();
    let mut invalid: Vec<Diagnostic> = Vec::new();
    proof {
        assert(entries.deep_view() =~= Seq::<FilterEntryView>::empty());
        assert(invalid.deep_view() =~= Seq::<DiagnosticView>::empty());
        assert(ast.comments.deep_view().take(0) =~= Seq::<CommentView>::empty());
    }
    let mut i: usize = 0;
    while i < ast.comments.len()
        invariant
            0 <= i <= ast.comments@.len(),
            ast.comments.deep_view().len() == ast.comments@.len(),
            ast@.wf(),
            entries.deep_view() == spec_entries(
                ast.comments.deep_view().take(i as int),
                known.deep_view(),
                ast@,
            ),
            invalid.deep_view() == spec_invalid_diags(
                ast.comments.deep_view().take(i as int),
                known.deep_view(),
                ast@,
            ),
        decreases ast.comments@.len() - i,
    {
        proof {
            assert(ast.comments.deep_view().take(i + 1).drop_last() =~= ast.comments.deep_view()
                .take(i as int));
            assert(ast.comments.deep_view().take(i + 1).last() == ast.comments[i as int]@);
        }
        let ghost prev_entries = entries.deep_view();
        let ghost prev_invalid = invalid.deep_view();
        let cmt = &ast.comments[i];
        proof {
            assert(ast@.comments[i as int].line < ast@.line_starts.len());
        }
        match parse_directive(cmt, known, ast) {
            Directive::NotDirective => {},
            Directive::Invalid(problem) => {
                let d = Diagnostic::new(
                    "invalid_lint_filter".to_owned(),
                    problem,
                    Label { start: cmt.start, end: cmt.start },
                );
                invalid.push(d);
                proof {
                    assert(invalid.deep_view() =~= prev_invalid.push(
                        spec_invalid_diag(
                            ast.comments[i as int]@,
                            match spec_parse_directive(
                                ast.comments[i as int]@,
                                known.deep_view(),
                                ast@,
                            ) {
                                DirectiveView::Invalid(p) => p,
                                _ => Seq::empty(),
                            },
                        ),
                    ));
                }
            },
            Directive::Entry(e) => {
                entries.push(e);
                proof {
                    assert(entries.deep_view() =~= prev_entries.push(
                        match spec_parse_directive(
                            ast.comments[i as int]@,
                            known.deep_view(),
                            ast@,
                        ) {
                            DirectiveView::Entry(ev) => ev,
                            _ => FilterEntryView { start: 0, end: 0, target: None },
                        },
                    ));
                }
            },
        }
        proof {
            assert(entries.deep_view() =~= spec_entries(
                ast.comments.deep_view().take(i + 1),
                known.deep_view(),
                ast@,
            ));
            assert(invalid.deep_view() =~= spec_invalid_diags(
                ast.comments.deep_view().take(i + 1),
                known.deep_view(),
                ast@,
            ));
        }
        i += 1;
    }
    proof {
        assert(ast.comments.deep_view().take(ast.comments@.len() as int) =~= ast.comments
            .deep_view());
    }
    (entries, invalid)
}

/// Applies the overlay: drops every accumulated diagnostic a directive
/// suppresses and reports each malformed directive at the filtering
/// unit's resolved severity.
pub fn filter_diagnostics(
    ast: &Ast,
    diagnostics: Vec<CheckerDiagnostic>,
    known: &Vec<String>,
    invalid_filter_severity: Severity,
) -> (r: Vec<CheckerDiagnostic>)
    requires
        ast@.wf(),
    ensures
        r.deep_view() == spec_filter_output(
            ast@,
            diagnostics.deep_view(),
            known.deep_view(),
            invalid_filter_severity,
        ),
{
    let (entries, invalid) = scan_directives(ast, known);
    let mut out: Vec<CheckerDiagnostic> = Vec::new();
    let mut input = diagnostics;
    let ghost input0 = input.deep_view();
    proof {
        assert(out.deep_view() =~= Seq::<CheckerDiagnosticView>::empty());
        assert(input0.take(0) =~= Seq::<CheckerDiagnosticView>::empty());
        assert(input.deep_view() =~= input0.skip(0));
    }
    let mut i: usize = 0;
    let n = input.len();
    while i < n
        invariant
            0 <= i <= n,
            n == input0.len(),
            input.deep_view() =~= input0.skip(i as int),
            input@.len() == n - i,
            out.deep_view() == spec_keep(input0.take(i as int), entries.deep_view()),
        decreases n - i,
    {
        proof {
            assert(input0.take(i + 1).drop_last() =~= input0.take(i as int));
            assert(input0.take(i + 1).last() == input0[i as int]);
            assert(input.deep_view()[0] == input0[i as int]);
            assert(input@[0].deep_view() == input0[i as int]);
        }
        let ghost prev = out.deep_view();
        let ghost shallow_before = input@;
        let ghost deep_before = input.deep_view();
        let d = input.remove(0);
        proof {
            assert(input@ =~= shallow_before.skip(1));
            assert forall|k: int| 0 <= k < input.deep_view().len() implies input.deep_view()[k]
                == input0.skip(i + 1)[k] by {
                assert(input@[k] == shallow_before[k + 1]);
                assert(input.deep_view()[k] == input@[k].deep_view());
                assert(deep_before[k + 1] == shallow_before[k + 1].deep_view());
                assert(deep_before[k + 1] == input0.skip(i as int)[k + 1]);
                assert(input0.skip(i as int)[k + 1] == input0[i + 1 + k]);
                assert(input0.skip(i + 1)[k] == input0[i + 1 + k]);
            }
            assert(input.deep_view() =~= input0.skip(i + 1));
        }
        let drop = suppressed(&entries, &d.diagnostic);
        if !drop {
            out.push(d);
            proof {
                assert(out.deep_view() =~= prev.push(input0[i as int]));
            }
        }
        proof {
            assert(out.deep_view() =~= spec_keep(input0.take(i + 1), entries.deep_view()));
        }
        i += 1;
    }
    proof {
        assert(input0.take(n as int) =~= input0);
    }
    let mut j: usize = 0;
    let ghost invalid0 = invalid.deep_view();
    let m = invalid.len();
    let mut rest = invalid;
    while j < m
        invariant
            0 <= j <= m,
            m == invalid0.len(),
            rest@.len() == m - j,
            rest.deep_view() =~= invalid0.skip(j as int),
            out.deep_view() == spec_keep(input0, entries.deep_view()) + crate::spec_tag(
                invalid0.take(j as int),
                invalid_filter_severity,
            ),
        decreases m - j,
    {
        let ghost prev = out.deep_view();
        let ghost shallow_before = rest@;
        let ghost deep_before = rest.deep_view();
        let d = rest.remove(0);
        proof {
            assert(deep_before[0] == shallow_before[0].deep_view());
            assert(d@ == invalid0.skip(j as int)[0]);
            assert(d@ == invalid0[j as int]);
            assert(rest@ =~= shallow_before.skip(1));
            assert forall|k: int| 0 <= k < rest.deep_view().len() implies rest.deep_view()[k]
                == invalid0.skip(j + 1)[k] by {
                assert(rest@[k] == shallow_before[k + 1]);
                assert(rest.deep_view()[k] == rest@[k].deep_view());
                assert(deep_before[k + 1] == shallow_before[k + 1].deep_view());
                assert(deep_before[k + 1] == invalid0.skip(j as int)[k + 1]);
                assert(invalid0.skip(j as int)[k + 1] == invalid0[j + 1 + k]);
                assert(invalid0.skip(j + 1)[k] == invalid0[j + 1 + k]);
            }
            assert(rest.deep_view() =~= invalid0.skip(j + 1));
        }
        out.push(CheckerDiagnostic { diagnostic: d, severity: invalid_filter_severity });
        proof {
            assert(out.deep_view() =~= prev.push(
                CheckerDiagnosticView {
                    diagnostic: invalid0[j as int],
                    severity: invalid_filter_severity,
                },
            ));
            assert(crate::spec_tag(invalid0.take(j + 1), invalid_filter_severity)
                =~= crate::spec_tag(invalid0.take(j as int), invalid_filter_severity).push(
                CheckerDiagnosticView {
                    diagnostic: invalid0[j as int],
                    severity: invalid_filter_severity,
                },
            ));
        }
        j += 1;
    }
    proof {
        assert(invalid0.take(m as int) =~= invalid0);
    }
    out
}

} // verus!
