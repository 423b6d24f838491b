//! The engine's model of one file's pre-parsed syntax tree.
//!
//! The parser itself is an external collaborator: it hands the engine a
//! tree already reduced to the plain structural facts the checks and the
//! suppression-directive overlay read — statements with byte spans,
//! comment trivia with positions, block extents and line starts.

use vstd::prelude::*;

verus! {

/// A half-open byte range `[start, end)` in the source text.
#[derive(Clone, Copy, Debug, PartialEq, Eq, Structural)]
pub struct Span {
    pub start: u64,
    pub end: u64,
}

impl View for Span {
    type V = Span;

    open spec fn view(&self) -> Span {
        *self
    }
}

impl DeepView for Span {
    type V = Span;

    open spec fn deep_view(&self) -> Span {
        *self
    }
}

impl Span {
    pub open spec fn wf(self) -> bool {
        self.start <= self.end
    }

    /// Whether a byte position falls inside this range.
    pub open spec fn spec_contains_pos(self, pos: u64) -> bool {
        self.start <= pos < self.end
    }

    pub fn contains_pos(&self, pos: u64) -> (r: bool)
        ensures
            r == self.spec_contains_pos(pos),
    {
        self.start <= pos && pos < self.end
    }
}

/// One comment in the source, with the byte offset where it starts and
/// the zero-based index of the line it sits on.
#[derive(Debug)]
pub struct Comment {
    pub text: String,
    pub start: u64,
    pub line: usize,
}

/// Mathematical image of a [`Comment`].
pub struct CommentView {
    pub text: Seq<char>,
    pub start: u64,
    pub line: usize,
}

impl View for Comment {
    type V = CommentView;

    open spec fn view(&self) -> CommentView {
        CommentView { text: self.text@, start: self.start, line: self.line }
    }
}

impl DeepView for Comment {
    type V = CommentView;

    open spec fn deep_view(&self) -> CommentView {
        self@
    }
}

/// One statement of the modeled tree, reduced to what the built-in
/// checks read: local declarations, reads of a name, and assignments
/// that create or overwrite a global.
#[derive(Debug)]
pub enum Stmt {
    LocalDecl { name: String, span: Span },
    Read { name: String, span: Span },
    GlobalAssign { name: String, span: Span },
}

/// Mathematical image of a [`Stmt`].
pub enum StmtView {
    LocalDecl { name: Seq<char>, span: Span },
    Read { name: Seq<char>, span: Span },
    GlobalAssign { name: Seq<char>, span: Span },
}

impl View for Stmt {
    type V = StmtView;

    open spec fn view(&self) -> StmtView {
        match self {
            Stmt::LocalDecl { name, span } => StmtView::LocalDecl { name: name@, span: *span },
            Stmt::Read { name, span } => StmtView::Read { name: name@, span: *span },
            Stmt::GlobalAssign { name, span } => StmtView::GlobalAssign {
                name: name@,
                span: *span,
            },
        }
    }
}

impl DeepView for Stmt {
    type V = StmtView;

    open spec fn deep_view(&self) -> StmtView {
        self@
    }
}

/// One file's tree.
#[derive(Debug)]
pub struct Ast {
    pub stmts: Vec<Stmt>,
    pub comments: Vec<Comment>,
    /// Byte span of every block in the file, nested blocks included.
    pub blocks: Vec<Span>,
    /// Byte offset of the first byte of each line, in increasing order;
    /// the first entry is 0.
    pub line_starts: Vec<u64>,
    /// Total length of the source text in bytes.
    pub len_bytes: u64,
}

/// Mathematical image of an [`Ast`].
pub struct AstView {
    pub stmts: Seq<StmtView>,
    pub comments: Seq<CommentView>,
    pub blocks: Seq<Span>,
    pub line_starts: Seq<u64>,
    pub len_bytes: u64,
}

impl View for Ast {
    type V = AstView;

    open spec fn view(&self) -> AstView {
        AstView {
            stmts: self.stmts.deep_view(),
            comments: self.comments.deep_view(),
            blocks: self.blocks.deep_view(),
            line_starts: self.line_starts.deep_view(),
            len_bytes: self.len_bytes,
        }
    }
}

impl DeepView for Ast {
    type V = AstView;

    open spec fn deep_view(&self) -> AstView {
        self@
    }
}

impl AstView {
    /// What the engine asks of a tree the parser hands it.
    pub open spec fn wf(self) -> bool {
        &&& forall|i: int| 0 <= i < self.blocks.len() ==> (#[trigger] self.blocks[i]).wf()
        &&& self.line_starts.len() > 0
        &&& self.line_starts[0] == 0
        &&& forall|i: int, j: int|
            0 <= i < j < self.line_starts.len() ==> self.line_starts[i] < self.line_starts[j]
        &&& forall|i: int|
            0 <= i < self.line_starts.len() ==> #[trigger] self.line_starts[i] <= self.len_bytes
        &&& forall|i: int|
            0 <= i < self.comments.len() ==> (#[trigger] self.comments[i]).line
                < self.line_starts.len()
    }
}

} // verus!
