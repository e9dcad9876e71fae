//! Mathematical model of the syntax tree.
//!
//! Every executable tree type has a model type over `Seq` and plain values,
//! reached through `View`. All contracts and laws in this crate speak of
//! these models.
use vstd::prelude::*;

use crate::tree::AliasTarget;
use crate::tree::Arm;
use crate::tree::ArgList;
use crate::tree::AssocTypeBinding;
use crate::tree::Expr;
use crate::tree::Finding;
use crate::tree::ImplBlock;
use crate::tree::ImplMember;
use crate::tree::MethodBody;
use crate::tree::Occurrence;
use crate::tree::Param;
use crate::tree::PathPosition;
use crate::tree::Pattern;
use crate::tree::Segment;
use crate::tree::Span;
use crate::tree::TypePath;
use crate::tree::TypeReference;

verus! {

#[verifier::ext_equal]
pub enum SpecArgList {
    Elided { arity: nat },
    Explicit { args: Seq<SpecPath> },
}

#[verifier::ext_equal]
pub struct SpecSegment {
    pub name: u64,
    pub args: SpecArgList,
}

#[verifier::ext_equal]
pub struct SpecPath {
    pub self_rooted: bool,
    pub segments: Seq<SpecSegment>,
}

#[verifier::ext_equal]
pub enum SpecTypeRef {
    SelfQualified { qualifier: Option<SpecPath>, path: SpecPath },
    TypeRelative { base: Box<SpecTypeRef>, member: SpecSegment },
    SpecialForm { tag: u64 },
}

#[verifier::ext_equal]
pub enum SpecAliasTarget {
    PathTarget { reference: SpecTypeRef },
    ParamTarget,
    OpaqueTarget,
}

#[verifier::ext_equal]
pub struct SpecBinding {
    pub name: u64,
    pub target: SpecTypeRef,
    pub span: Span,
}

#[verifier::ext_equal]
pub enum SpecPattern {
    PathPat { reference: SpecTypeRef, span: Span },
    DestructPat { reference: SpecTypeRef, span: Span, fields: Seq<SpecPattern> },
    BindingPat,
    WildPat,
}

#[verifier::ext_equal]
pub struct SpecArm {
    pub pattern: SpecPattern,
    pub body: SpecExpr,
}

#[verifier::ext_equal]
pub enum SpecExpr {
    MatchExpr { subject: Box<SpecExpr>, subject_annotation: Option<SpecTypeRef>, arms: Seq<SpecArm> },
    TypedExpr { annotation: SpecTypeRef, span: Span, inner: Box<SpecExpr> },
    PathExpr { reference: SpecTypeRef, span: Span },
    CompoundExpr { children: Seq<SpecExpr> },
    LeafExpr,
}

#[verifier::ext_equal]
pub struct SpecParam {
    pub annotation: Option<SpecTypeRef>,
    pub pattern: SpecPattern,
}

#[verifier::ext_equal]
pub struct SpecMethodBody {
    pub params: Seq<SpecParam>,
    pub root: SpecExpr,
}

#[verifier::ext_equal]
pub enum SpecImplMember {
    AssocTypeMember { name: u64, target: SpecAliasTarget, span: Span },
    MethodMember { body: SpecMethodBody },
    OtherMember,
}

#[verifier::ext_equal]
pub struct SpecImplBlock {
    pub members: Seq<SpecImplMember>,
}

#[verifier::ext_equal]
pub struct SpecOccurrence {
    pub reference: SpecTypeRef,
    pub context: Option<SpecTypeRef>,
    pub position: PathPosition,
    pub span: Span,
}

#[verifier::ext_equal]
pub struct SpecFinding {
    pub occurrence: SpecOccurrence,
    pub binding: SpecBinding,
}

pub open spec fn view_arg_list(a: ArgList) -> SpecArgList
    decreases a,
{
    match a {
        ArgList::Elided { arity } => SpecArgList::Elided { arity: arity as nat },
        ArgList::Explicit { args } => SpecArgList::Explicit {
            args: Seq::new(
                args@.len(),
                |i: int|
                    if 0 <= i < args@.len() {
                        view_type_path(args@[i])
                    } else {
                        vstd::pervasive::arbitrary()
                    },
            ),
        },
    }
}

pub open spec fn view_segment(s: Segment) -> SpecSegment
    decreases s,
{
    SpecSegment { name: s.name, args: view_arg_list(s.args) }
}

pub open spec fn view_type_path(p: TypePath) -> SpecPath
    decreases p,
{
    SpecPath {
        self_rooted: p.self_rooted,
        segments: Seq::new(
            p.segments@.len(),
            |i: int|
                if 0 <= i < p.segments@.len() {
                    view_segment(p.segments@[i])
                } else {
                    vstd::pervasive::arbitrary()
                },
        ),
    }
}

pub open spec fn view_type_ref(r: TypeReference) -> SpecTypeRef
    decreases r,
{
    match r {
        TypeReference::SelfQualified { qualifier, path } => SpecTypeRef::SelfQualified {
            qualifier: view_opt_path(qualifier),
            path: view_type_path(path),
        },
        TypeReference::TypeRelative { base, member } => SpecTypeRef::TypeRelative {
            base: Box::new(view_type_ref(*base)),
            member: view_segment(member),
        },
        TypeReference::SpecialForm { tag } => SpecTypeRef::SpecialForm { tag },
    }
}

pub open spec fn view_opt_path(o: Option<TypePath>) -> Option<SpecPath> {
    match o {
        Option::Some(p) => Option::Some(view_type_path(p)),
        Option::None => Option::None,
    }
}

pub open spec fn view_opt_ref(o: Option<TypeReference>) -> Option<SpecTypeRef> {
    match o {
        Option::Some(r) => Option::Some(view_type_ref(r)),
        Option::None => Option::None,
    }
}

pub open spec fn view_alias_target(t: AliasTarget) -> SpecAliasTarget {
    match t {
        AliasTarget::PathTarget { reference } => SpecAliasTarget::PathTarget {
            reference: view_type_ref(reference),
        },
        AliasTarget::ParamTarget => SpecAliasTarget::ParamTarget,
        AliasTarget::OpaqueTarget => SpecAliasTarget::OpaqueTarget,
    }
}

pub open spec fn view_binding(b: AssocTypeBinding) -> SpecBinding {
    SpecBinding { name: b.name, target: view_type_ref(b.target), span: b.span }
}

pub open spec fn view_pattern(p: Pattern) -> SpecPattern
    decreases p,
{
    match p {
        Pattern::PathPat { reference, span } => SpecPattern::PathPat {
            reference: view_type_ref(reference),
            span,
        },
        Pattern::DestructPat { reference, span, fields } => SpecPattern::DestructPat {
            reference: view_type_ref(reference),
            span,
            fields: Seq::new(
                fields@.len(),
                |i: int|
                    if 0 <= i < fields@.len() {
                        view_pattern(fields@[i])
                    } else {
                        vstd::pervasive::arbitrary()
                    },
            ),
        },
        Pattern::BindingPat => SpecPattern::BindingPat,
        Pattern::WildPat => SpecPattern::WildPat,
    }
}

pub open spec fn view_expr(e: Expr) -> SpecExpr
    decreases e,
{
    match e {
        Expr::MatchExpr { subject, subject_annotation, arms } => SpecExpr::MatchExpr {
            subject: Box::new(view_expr(*subject)),
            subject_annotation: view_opt_ref(subject_annotation),
            arms: Seq::new(
                arms@.len(),
                |i: int|
                    if 0 <= i < arms@.len() {
                        view_arm(arms@[i])
                    } else {
                        vstd::pervasive::arbitrary()
                    },
            ),
        },
        Expr::TypedExpr { annotation, span, inner } => SpecExpr::TypedExpr {
            annotation: view_type_ref(annotation),
            span,
            inner: Box::new(view_expr(*inner)),
        },
        Expr::PathExpr { reference, span } => SpecExpr::PathExpr {
            reference: view_type_ref(reference),
            span,
        },
        Expr::CompoundExpr { children } => SpecExpr::CompoundExpr {
            children: Seq::new(
                children@.len(),
                |i: int|
                    if 0 <= i < children@.len() {
                        view_expr(children@[i])
                    } else {
                        vstd::pervasive::arbitrary()
                    },
            ),
        },
        Expr::LeafExpr => SpecExpr::LeafExpr,
    }
}

pub open spec fn view_arm(a: Arm) -> SpecArm
    decreases a,
{
    SpecArm { pattern: view_pattern(a.pattern), body: view_expr(a.body) }
}

pub open spec fn view_param(p: Param) -> SpecParam {
    SpecParam { annotation: view_opt_ref(p.annotation), pattern: view_pattern(p.pattern) }
}

pub open spec fn view_method_body(b: MethodBody) -> SpecMethodBody {
    SpecMethodBody {
        params: Seq::new(b.params@.len(), |i: int| view_param(b.params@[i])),
        root: view_expr(b.root),
    }
}

pub open spec fn view_member(m: ImplMember) -> SpecImplMember {
    match m {
        ImplMember::AssocTypeMember { name, target, span } => SpecImplMember::AssocTypeMember {
            name,
            target: view_alias_target(target),
            span,
        },
        ImplMember::MethodMember { body } => SpecImplMember::MethodMember {
            body: view_method_body(body),
        },
        ImplMember::OtherMember => SpecImplMember::OtherMember,
    }
}

pub open spec fn view_block(b: ImplBlock) -> SpecImplBlock {
    SpecImplBlock { members: Seq::new(b.members@.len(), |i: int| view_member(b.members@[i])) }
}

pub open spec fn view_occurrence(o: Occurrence) -> SpecOccurrence {
    SpecOccurrence {
        reference: view_type_ref(o.reference),
        context: view_opt_ref(o.context),
        position: o.position,
        span: o.span,
    }
}

pub open spec fn view_finding(f: Finding) -> SpecFinding {
    SpecFinding { occurrence: view_occurrence(f.occurrence), binding: view_binding(f.binding) }
}

/// The model of a sequence of occurrences, element by element.
pub open spec fn view_occ_seq(s: Seq<Occurrence>) -> Seq<SpecOccurrence> {
    Seq::new(s.len(), |i: int| view_occurrence(s[i]))
}

/// The model of a sequence of bindings, element by element.
pub open spec fn view_binding_seq(s: Seq<AssocTypeBinding>) -> Seq<SpecBinding> {
    Seq::new(s.len(), |i: int| view_binding(s[i]))
}

/// The model of a sequence of findings, element by element.
pub open spec fn view_finding_seq(s: Seq<Finding>) -> Seq<SpecFinding> {
    Seq::new(s.len(), |i: int| view_finding(s[i]))
}

/// The model of a sequence of implementation blocks, element by element.
pub open spec fn view_block_seq(s: Seq<ImplBlock>) -> Seq<SpecImplBlock> {
    Seq::new(s.len(), |i: int| view_block(s[i]))
}

pub proof fn lemma_view_occ_seq_push(s: Seq<Occurrence>, x: Occurrence)
    ensures
        view_occ_seq(s.push(x)) == view_occ_seq(s) + seq![view_occurrence(x)],
{
    assert(view_occ_seq(s.push(x)) =~= view_occ_seq(s) + seq![view_occurrence(x)]);
}

pub proof fn lemma_view_binding_seq_push(s: Seq<AssocTypeBinding>, x: AssocTypeBinding)
    ensures
        view_binding_seq(s.push(x)) == view_binding_seq(s) + seq![view_binding(x)],
{
    assert(view_binding_seq(s.push(x)) =~= view_binding_seq(s) + seq![view_binding(x)]);
}

pub proof fn lemma_view_finding_seq_push(s: Seq<Finding>, x: Finding)
    ensures
        view_finding_seq(s.push(x)) == view_finding_seq(s) + seq![view_finding(x)],
{
    assert(view_finding_seq(s.push(x)) =~= view_finding_seq(s) + seq![view_finding(x)]);
}

pub proof fn lemma_view_finding_seq_concat(s1: Seq<Finding>, s2: Seq<Finding>)
    ensures
        view_finding_seq(s1 + s2) == view_finding_seq(s1) + view_finding_seq(s2),
{
    assert(view_finding_seq(s1 + s2) =~= view_finding_seq(s1) + view_finding_seq(s2));
}

/// How [`view_pattern`] reads a destructuring pattern, field by field.
pub proof fn lemma_view_pattern_fields(p: Pattern)
    ensures
        p matches Pattern::DestructPat { .. } ==> {
            &&& view_pattern(p) is DestructPat
            &&& view_pattern(p)->DestructPat_reference == view_type_ref(p->DestructPat_reference)
            &&& view_pattern(p)->DestructPat_span == p->DestructPat_span
            &&& view_pattern(p)->fields.len() == p->fields@.len()
            &&& forall|i: int|
                0 <= i < p->fields@.len() ==> view_pattern(p)->fields[i] == view_pattern(
                    p->fields@[i],
                )
        },
{
}

/// How [`view_expr`] reads the nodes that carry children, child by child.
pub proof fn lemma_view_expr_nodes(e: Expr)
    ensures
        e matches Expr::MatchExpr { .. } ==> {
            &&& view_expr(e) is MatchExpr
            &&& *view_expr(e)->subject == view_expr(*e->subject)
            &&& view_expr(e)->subject_annotation == view_opt_ref(e->subject_annotation)
            &&& view_expr(e)->arms.len() == e->arms@.len()
            &&& forall|i: int|
                0 <= i < e->arms@.len() ==> view_expr(e)->arms[i] == view_arm(e->arms@[i])
        },
        e matches Expr::CompoundExpr { .. } ==> {
            &&& view_expr(e) is CompoundExpr
            &&& view_expr(e)->children.len() == e->children@.len()
            &&& forall|i: int|
                0 <= i < e->children@.len() ==> view_expr(e)->children[i] == view_expr(
                    e->children@[i],
                )
        },
{
}

/// How [`view_method_body`] reads the parameter list, element by element.
pub proof fn lemma_view_body_params(b: MethodBody)
    ensures
        view_method_body(b).root == view_expr(b.root),
        view_method_body(b).params.len() == b.params@.len(),
        forall|i: int|
            0 <= i < b.params@.len() ==> view_method_body(b).params[i] == view_param(
                b.params@[i],
            ),
{
}

/// How [`view_block`] reads the member list, element by element.
pub proof fn lemma_view_block_members(b: ImplBlock)
    ensures
        view_block(b).members.len() == b.members@.len(),
        forall|i: int|
            0 <= i < b.members@.len() ==> view_block(b).members[i] == view_member(b.members@[i]),
{
}

/// How [`view_type_path`] reads a path, element by element.
pub proof fn lemma_view_path(p: TypePath)
    ensures
        view_type_path(p).self_rooted == p.self_rooted,
        view_type_path(p).segments.len() == p.segments@.len(),
        forall|i: int|
            0 <= i < p.segments@.len() ==> view_type_path(p).segments[i] == view_segment(
                p.segments@[i],
            ),
{
}

/// How [`view_arg_list`] reads explicit arguments, element by element.
pub proof fn lemma_view_args(a: ArgList)
    ensures
        a matches ArgList::Explicit { .. } ==> {
            &&& view_arg_list(a) is Explicit
            &&& view_arg_list(a)->args.len() == a->args@.len()
            &&& forall|i: int|
                0 <= i < a->args@.len() ==> view_arg_list(a)->args[i] == view_type_path(
                    a->args@[i],
                )
        },
        a matches ArgList::Elided { .. } ==> view_arg_list(a) == (SpecArgList::Elided {
            arity: a->arity as nat,
        }),
{
}

impl View for ArgList {
    type V = SpecArgList;

    open spec fn view(&self) -> SpecArgList {
        view_arg_list(*self)
    }
}

impl View for Segment {
    type V = SpecSegment;

    open spec fn view(&self) -> SpecSegment {
        view_segment(*self)
    }
}

impl View for TypePath {
    type V = SpecPath;

    open spec fn view(&self) -> SpecPath {
        view_type_path(*self)
    }
}

impl View for TypeReference {
    type V = SpecTypeRef;

    open spec fn view(&self) -> SpecTypeRef {
        view_type_ref(*self)
    }
}

impl View for AliasTarget {
    type V = SpecAliasTarget;

    open spec fn view(&self) -> SpecAliasTarget {
        view_alias_target(*self)
    }
}

impl View for AssocTypeBinding {
    type V = SpecBinding;

    open spec fn view(&self) -> SpecBinding {
        view_binding(*self)
    }
}

impl View for Pattern {
    type V = SpecPattern;

    open spec fn view(&self) -> SpecPattern {
        view_pattern(*self)
    }
}

impl View for Arm {
    type V = SpecArm;

    open spec fn view(&self) -> SpecArm {
        view_arm(*self)
    }
}

impl View for Expr {
    type V = SpecExpr;

    open spec fn view(&self) -> SpecExpr {
        view_expr(*self)
    }
}

impl View for Param {
    type V = SpecParam;

    open spec fn view(&self) -> SpecParam {
        view_param(*self)
    }
}

impl View for MethodBody {
    type V = SpecMethodBody;

    open spec fn view(&self) -> SpecMethodBody {
        view_method_body(*self)
    }
}

impl View for ImplMember {
    type V = SpecImplMember;

    open spec fn view(&self) -> SpecImplMember {
        view_member(*self)
    }
}

impl View for ImplBlock {
    type V = SpecImplBlock;

    open spec fn view(&self) -> SpecImplBlock {
        view_block(*self)
    }
}

impl View for Occurrence {
    type V = SpecOccurrence;

    open spec fn view(&self) -> SpecOccurrence {
        view_occurrence(*self)
    }
}

impl View for Finding {
    type V = SpecFinding;

    open spec fn view(&self) -> SpecFinding {
        view_finding(*self)
    }
}

} // verus!
