//! Executable syntax-tree types for the analysis.
//!
//! The host driver hands the analysis a fully parsed, name-resolved tree; the
//! types here hold exactly the parts of that tree the analysis reads.
//! Identifiers arrive as interned symbols (`u64`), so comparing two names is
//! an integer comparison.
use vstd::prelude::*;

verus! {

/// Source position of a syntactic element. `file` is an interned file name.
#[derive(Clone, Copy, Debug, PartialEq, Eq, Structural)]
pub struct Span {
    pub file: u64,
    pub line: u64,
    pub column: u64,
    pub byte_start: u64,
    pub byte_end: u64,
}

/// Whether a path occurrence stands where a type is written (an annotation)
/// or where a value is written (a pattern or an expression path, which may
/// carry one trailing member segment naming a variant or constant).
#[derive(Clone, Copy, PartialEq, Eq, Structural)]
pub enum PathPosition {
    TypePosition,
    ValuePosition,
}

/// How generic arguments are compared when both sides of a match carry them.
#[derive(Clone, Copy, PartialEq, Eq, Structural)]
pub enum ArgPolicy {
    /// A side that omits argument details is compared by arity alone.
    Lenient,
    /// Both sides must spell arguments out the same way.
    Strict,
}

/// Generic arguments attached to one path segment.
pub enum ArgList {
    /// The source omits argument details; only their number is known.
    Elided { arity: usize },
    /// The source spells each argument out as a type path.
    Explicit { args: Vec<TypePath> },
}

/// One segment of a type path: an interned identifier plus generic arguments.
pub struct Segment {
    pub name: u64,
    pub args: ArgList,
}

/// A module-qualified type path. `self_rooted` marks a path written through
/// the implementing type (`Self::...`); its segments then follow the `Self`
/// keyword.
pub struct TypePath {
    pub self_rooted: bool,
    pub segments: Vec<Segment>,
}

/// The closed set of syntactic shapes a type reference can take. The set
/// mirrors the host grammar's path forms and does not grow.
pub enum TypeReference {
    /// A plain path, optionally preceded by an explicit owner-type qualifier
    /// (the `<Owner as Contract>::...` form).
    SelfQualified { qualifier: Option<TypePath>, path: TypePath },
    /// A path whose leading part is itself a type reference, followed by one
    /// member segment.
    TypeRelative { base: Box<TypeReference>, member: Segment },
    /// An opaque special form (language-item paths and the like). Never
    /// compared; it neither yields a binding nor matches one.
    SpecialForm { tag: u64 },
}

/// The right-hand side of an associated-type member in an implementation
/// block.
pub enum AliasTarget {
    /// The right-hand side is a type path.
    PathTarget { reference: TypeReference },
    /// The right-hand side is a generic parameter of the block; it names no
    /// one concrete type and contributes no binding.
    ParamTarget,
    /// Any other shape (a placeholder, a macro leftover); contributes no
    /// binding.
    OpaqueTarget,
}

/// One associated-type member of an implementation block, fixed to a concrete
/// target type.
pub struct AssocTypeBinding {
    pub name: u64,
    pub target: TypeReference,
    pub span: Span,
}

/// A pattern inside a method body, reduced to the parts the analysis reads.
pub enum Pattern {
    /// A bare path pattern, such as a unit variant.
    PathPat { reference: TypeReference, span: Span },
    /// A destructuring pattern: a path applied to field patterns.
    DestructPat { reference: TypeReference, span: Span, fields: Vec<Pattern> },
    /// A name binding; contains no type path.
    BindingPat,
    /// A wildcard; contains no type path.
    WildPat,
}

/// One arm of a destructuring expression.
pub struct Arm {
    pub pattern: Pattern,
    pub body: Expr,
}

/// An expression inside a method body, reduced to the parts the analysis
/// reads.
pub enum Expr {
    /// A destructuring expression. `subject_annotation` carries the declared
    /// type of the destructured subject as written at its declaration, when
    /// the host resolved one.
    MatchExpr { subject: Box<Expr>, subject_annotation: Option<TypeReference>, arms: Vec<Arm> },
    /// An expression carrying an explicit type annotation.
    TypedExpr { annotation: TypeReference, span: Span, inner: Box<Expr> },
    /// A path written in value position.
    PathExpr { reference: TypeReference, span: Span },
    /// Any other node with children; only the children are read.
    CompoundExpr { children: Vec<Expr> },
    /// Any other node without children.
    LeafExpr,
}

/// One method parameter: its pattern and, when the host resolved one, the
/// declared type as written.
pub struct Param {
    pub annotation: Option<TypeReference>,
    pub pattern: Pattern,
}

/// One method body of an implementation block.
pub struct MethodBody {
    pub params: Vec<Param>,
    pub root: Expr,
}

/// One member of an implementation block.
pub enum ImplMember {
    /// An associated-type member, `name = target`.
    AssocTypeMember { name: u64, target: AliasTarget, span: Span },
    /// A method with a body.
    MethodMember { body: MethodBody },
    /// Any other member; the analysis does not read it.
    OtherMember,
}

/// One interface-for-type implementation block: the unit of analysis. No
/// state survives from one block to the next.
pub struct ImplBlock {
    pub members: Vec<ImplMember>,
}

/// A type reference found in a method body, with the declared type of the
/// enclosing destructured subject (if any) and its source span.
pub struct Occurrence {
    pub reference: TypeReference,
    pub context: Option<TypeReference>,
    pub position: PathPosition,
    pub span: Span,
}

/// One reported opportunity to replace a direct concrete-type reference with
/// its associated-type equivalent.
pub struct Finding {
    pub occurrence: Occurrence,
    pub binding: AssocTypeBinding,
}

impl Finding {
    /// The fixed advisory text every finding carries.
    pub fn message(&self) -> &'static str {
        "used concrete type where the associated type could be used instead"
    }
}

} // verus!
