//! Severities, diagnostics, the shared run context, per-file facts, and
//! the fixed registry of built-in checks.

use crate::ast::Ast;
use crate::ast::AstView;
use crate::ast::Comment;
use crate::ast::CommentView;
use crate::ast::Stmt;
use crate::ast::StmtView;
use vstd::prelude::*;

verus! {

/// Final, user-visible classification of one finding.
#[derive(Clone, Copy, Debug, PartialEq, Eq, Structural)]
pub enum Severity {
    Allow,
    Warning,
    Error,
}

impl View for Severity {
    type V = Severity;

    open spec fn view(&self) -> Severity {
        *self
    }
}

impl DeepView for Severity {
    type V = Severity;

    open spec fn deep_view(&self) -> Severity {
        *self
    }
}

/// A source range a diagnostic points at.
#[derive(Clone, Copy, Debug, PartialEq, Eq, Structural)]
pub struct Label {
    pub start: u64,
    pub end: u64,
}

impl View for Label {
    type V = Label;

    open spec fn view(&self) -> Label {
        *self
    }
}

impl DeepView for Label {
    type V = Label;

    open spec fn deep_view(&self) -> Label {
        *self
    }
}

impl Label {
    pub fn new(range: (u64, u64)) -> (r: Label)
        ensures
            r.start == range.0 && r.end == range.1,
    {
        Label { start: range.0, end: range.1 }
    }
}

/// One reported finding: the reporting unit's name, a human message, a
/// primary source range, and optional secondary ranges and notes.
/// Immutable once produced.
#[derive(Debug)]
pub struct Diagnostic {
    pub code: String,
    pub message: String,
    pub primary_label: Label,
    pub secondary_labels: Vec<Label>,
    pub notes: Vec<String>,
}

/// Mathematical image of a [`Diagnostic`].
pub struct DiagnosticView {
    pub code: Seq<char>,
    pub message: Seq<char>,
    pub primary_label: Label,
    pub secondary_labels: Seq<Label>,
    pub notes: Seq<Seq<char>>,
}

impl View for Diagnostic {
    type V = DiagnosticView;

    open spec fn view(&self) -> DiagnosticView {
        DiagnosticView {
            code: self.code@,
            message: self.message@,
            primary_label: self.primary_label,
            secondary_labels: self.secondary_labels.deep_view(),
            notes: self.notes.deep_view(),
        }
    }
}

impl DeepView for Diagnostic {
    type V = DiagnosticView;

    open spec fn deep_view(&self) -> DiagnosticView {
        self@
    }
}

impl Diagnostic {
    pub fn new(code: String, message: String, primary_label: Label) -> (r: Diagnostic)
        ensures
            r@ == (DiagnosticView {
                code: code@,
                message: message@,
                primary_label: primary_label,
                secondary_labels: Seq::<Label>::empty(),
                notes: Seq::<Seq<char>>::empty(),
            }),
    {
        let r = Diagnostic {
            code,
            message,
            primary_label,
            secondary_labels: Vec::new(),
            notes: Vec::new(),
        };
        proof {
            assert(r.secondary_labels.deep_view() =~= Seq::<Label>::empty());
            assert(r.notes.deep_view() =~= Seq::<Seq<char>>::empty());
        }
        r
    }
}

/// The external standard-library profile some checks consult: a schema
/// of known global names. Its loading and full contents are a
/// collaborator's business; the engine reads only the global names.
#[derive(Debug)]
pub struct StandardLibrary {
    pub name: String,
    pub globals: Vec<String>,
}

/// Mathematical image of a [`StandardLibrary`].
pub struct StandardLibraryView {
    pub name: Seq<char>,
    pub globals: Seq<Seq<char>>,
}

impl View for StandardLibrary {
    type V = StandardLibraryView;

    open spec fn view(&self) -> StandardLibraryView {
        StandardLibraryView { name: self.name@, globals: self.globals.deep_view() }
    }
}

impl StandardLibrary {
    /// An empty profile, used when the configuration selects none.
    pub fn empty() -> (r: StandardLibrary)
        ensures
            r@.name.len() == 0,
            r@.globals.len() == 0,
    {
        let r = StandardLibrary { name: String::new(), globals: Vec::new() };
        proof {
            assert(r@.globals =~= Seq::<Seq<char>>::empty());
        }
        r
    }
}

/// Immutable, run-scoped facts shared by every check of one constructed
/// engine: the standard-library profile and whether the configuration
/// explicitly selected one.
#[derive(Debug)]
pub struct Context {
    pub standard_library: StandardLibrary,
    pub standard_library_is_set: bool,
}

/// Mathematical image of a [`Context`].
pub struct ContextView {
    pub standard_library: StandardLibraryView,
    pub standard_library_is_set: bool,
}

impl View for Context {
    type V = ContextView;

    open spec fn view(&self) -> ContextView {
        ContextView {
            standard_library: self.standard_library@,
            standard_library_is_set: self.standard_library_is_set,
        }
    }
}

/// The names read somewhere in a statement sequence, in statement order.
pub open spec fn spec_read_names(stmts: Seq<StmtView>) -> Seq<Seq<char>>
    decreases stmts.len(),
{
    if stmts.len() == 0 {
        Seq::empty()
    } else {
        spec_read_names(stmts.drop_last()) + match stmts.last() {
            StmtView::Read { name, span } => seq![name],
            _ => Seq::empty(),
        }
    }
}

/// Per-file precomputed facts: shallow derived data consumed by several
/// checks and by the filtering overlay, computed once per file instead
/// of once per check. Derived strictly from one file's tree.
#[derive(Debug)]
pub struct AstContext {
    pub comments: Vec<Comment>,
    pub read_names: Vec<String>,
}

/// Mathematical image of an [`AstContext`].
pub struct AstContextView {
    pub comments: Seq<CommentView>,
    pub read_names: Seq<Seq<char>>,
}

impl View for AstContext {
    type V = AstContextView;

    open spec fn view(&self) -> AstContextView {
        AstContextView {
            comments: self.comments.deep_view(),
            read_names: self.read_names.deep_view(),
        }
    }
}

impl AstContext {
    /// Derives the per-file facts from one tree: the comment trivia and
    /// the names the file reads. A pure function of the tree.
    pub fn from_ast(ast: &Ast) -> (r: AstContext)
        ensures
            r@.comments == ast@.comments,
            r@.read_names == spec_read_names(ast@.stmts),
    {
        let mut read_names: Vec<String> = Vec::new();
        proof {
            assert(read_names.deep_view() =~= Seq::<Seq<char>>::empty());
            assert(ast.stmts.deep_view().take(0) =~= Seq::<StmtView>::empty());
        }
        let mut i: usize = 0;
        while i < ast.stmts.len()
            invariant
                0 <= i <= ast.stmts@.len(),
                ast.stmts.deep_view().len() == ast.stmts@.len(),
                read_names.deep_view() == spec_read_names(ast.stmts.deep_view().take(i as int)),
            decreases ast.stmts@.len() - i,
        {
            proof {
                assert(ast.stmts.deep_view().take(i + 1).drop_last() =~= ast.stmts.deep_view()
                    .take(i as int));
                assert(ast.stmts.deep_view().take(i + 1).last() == ast.stmts[i as int]@);
            }
            let ghost prev = read_names.deep_view();
            match &ast.stmts[i] {
                Stmt::Read { name, span } => {
                    read_names.push(name.clone());
                    proof {
                        assert(read_names.deep_view() =~= prev.push(name@));
                        assert(read_names.deep_view() =~= spec_read_names(
                            ast.stmts.deep_view().take(i + 1),
                        ));
                    }
                },
                _ => {
                    proof {
                        assert(read_names.deep_view() =~= spec_read_names(
                            ast.stmts.deep_view().take(i + 1),
                        ));
                    }
                },
            }
            i += 1;
        }
        proof {
            assert(ast.stmts.deep_view().take(ast.stmts@.len() as int) =~= ast.stmts.deep_view());
        }
        let mut comments: Vec<Comment> = Vec::new();
        proof {
            assert(comments.deep_view() =~= Seq::<CommentView>::empty());
            assert(ast.comments.deep_view().take(0) =~= Seq::<CommentView>::empty());
        }
        let mut j: usize = 0;
        while j < ast.comments.len()
            invariant
                0 <= j <= ast.comments@.len(),
                ast.comments.deep_view().len() == ast.comments@.len(),
                comments.deep_view() == ast.comments.deep_view().take(j as int),
            decreases ast.comments@.len() - j,
        {
            let ghost prev_comments = comments.deep_view();
            let c = &ast.comments[j];
            let copied = Comment { text: c.text.clone(), start: c.start, line: c.line };
            proof {
                assert(copied@ == ast.comments[j as int]@);
            }
            comments.push(copied);
            proof {
                assert(comments.deep_view() =~= prev_comments.push(ast.comments[j as int]@));
                assert(ast.comments.deep_view().take(j + 1) =~= ast.comments.deep_view().take(
                    j as int,
                ).push(ast.comments[j as int]@));
            }
            j += 1;
        }
        proof {
            assert(ast.comments.deep_view().take(ast.comments@.len() as int) =~= ast.comments
                .deep_view());
        }
        AstContext { comments, read_names }
    }
}

} // verus!
