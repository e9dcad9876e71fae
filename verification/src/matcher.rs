//! The equivalence matcher: decides whether a type-path occurrence found in a
//! method body structurally matches an associated-type binding.
//!
//! A match needs all of:
//! - the same syntactic shape on both sides (a type-relative occurrence never
//!   matches a plain-path binding, and an opaque special form never matches
//!   anything);
//! - structurally equal owner-type qualifiers, or none on either side;
//! - exactly equal base path identity, with generic arguments compared under
//!   the chosen [`ArgPolicy`]; an occurrence in value position may carry one
//!   trailing member segment (a variant or constant of the bound type) beyond
//!   the binding's path;
//! - an enclosing subject context, when the occurrence has one, that routes
//!   through the binding's associated-type name: a value destructured from a
//!   subject declared with the concrete type directly never yields a match.
use vstd::prelude::*;

use crate::model::SpecArgList;
use crate::model::SpecBinding;
use crate::model::SpecOccurrence;
use crate::model::SpecPath;
use crate::model::SpecSegment;
use crate::model::SpecTypeRef;
use crate::tree::ArgList;
use crate::tree::ArgPolicy;
use crate::tree::AssocTypeBinding;
use crate::tree::Occurrence;
use crate::tree::PathPosition;
use crate::tree::Segment;
use crate::tree::TypePath;
use crate::tree::TypeReference;

verus! {

/// Generic-argument comparison. Under the lenient policy a side that omits
/// argument details is compared by arity alone; when both sides spell the
/// arguments out, structural equality is required under either policy.
pub open spec fn spec_args_match(a: SpecArgList, b: SpecArgList, policy: ArgPolicy) -> bool
    decreases a,
{
    match (a, b) {
        (SpecArgList::Elided { arity: n }, SpecArgList::Elided { arity: m }) => n == m,
        (SpecArgList::Elided { arity: n }, SpecArgList::Explicit { args }) => {
            policy == ArgPolicy::Lenient && n == args.len()
        },
        (SpecArgList::Explicit { args }, SpecArgList::Elided { arity: m }) => {
            policy == ArgPolicy::Lenient && args.len() == m
        },
        (SpecArgList::Explicit { args: xs }, SpecArgList::Explicit { args: ys }) => {
            xs.len() == ys.len() && forall|i: int|
                0 <= i < xs.len() ==> spec_path_match(xs[i], ys[i], policy)
        },
    }
}

/// One path segment matches another when the names are the same identifier
/// and the generic arguments match.
pub open spec fn spec_seg_match(a: SpecSegment, b: SpecSegment, policy: ArgPolicy) -> bool
    decreases a,
{
    a.name == b.name && spec_args_match(a.args, b.args, policy)
}

/// Exact base path identity: same rooting, same length, matching segments.
pub open spec fn spec_path_match(a: SpecPath, b: SpecPath, policy: ArgPolicy) -> bool
    decreases a,
{
    a.self_rooted == b.self_rooted && a.segments.len() == b.segments.len() && forall|i: int|
        0 <= i < a.segments.len() ==> spec_seg_match(a.segments[i], b.segments[i], policy)
}

/// `a` is `b` followed by exactly one extra member segment.
pub open spec fn spec_path_extends(a: SpecPath, b: SpecPath, policy: ArgPolicy) -> bool
    decreases a,
{
    a.self_rooted == b.self_rooted && a.segments.len() == b.segments.len() + 1 && forall|i: int|
        0 <= i < b.segments.len() ==> spec_seg_match(a.segments[i], b.segments[i], policy)
}

/// Owner-type qualifiers must be structurally equal; one side carrying a
/// qualifier while the other does not fails the comparison.
pub open spec fn spec_qual_match(
    a: Option<SpecPath>,
    b: Option<SpecPath>,
    policy: ArgPolicy,
) -> bool {
    match (a, b) {
        (Option::None, Option::None) => true,
        (Option::Some(x), Option::Some(y)) => spec_path_match(x, y, policy),
        _ => false,
    }
}

/// Full structural equivalence of two references: same shape, matching
/// qualifiers, equal path identity. Opaque special forms never match.
pub open spec fn spec_ref_exact_match(a: SpecTypeRef, b: SpecTypeRef, policy: ArgPolicy) -> bool
    decreases a,
{
    match (a, b) {
        (
            SpecTypeRef::SelfQualified { qualifier: q1, path: p1 },
            SpecTypeRef::SelfQualified { qualifier: q2, path: p2 },
        ) => spec_qual_match(q1, q2, policy) && spec_path_match(p1, p2, policy),
        (
            SpecTypeRef::TypeRelative { base: b1, member: m1 },
            SpecTypeRef::TypeRelative { base: b2, member: m2 },
        ) => spec_ref_exact_match(*b1, *b2, policy) && spec_seg_match(m1, m2, policy),
        _ => false,
    }
}

/// `a` names a member (a variant or constant) of the type that `b` names:
/// the same shape as `b`, with one trailing member segment beyond it.
pub open spec fn spec_ref_extends(a: SpecTypeRef, b: SpecTypeRef, policy: ArgPolicy) -> bool {
    match (a, b) {
        (
            SpecTypeRef::SelfQualified { qualifier: q1, path: p1 },
            SpecTypeRef::SelfQualified { qualifier: q2, path: p2 },
        ) => spec_qual_match(q1, q2, policy) && spec_path_extends(p1, p2, policy),
        (
            SpecTypeRef::TypeRelative { base: b1, member: _ },
            SpecTypeRef::TypeRelative { base: _, member: _ },
        ) => spec_ref_exact_match(*b1, b, policy),
        _ => false,
    }
}

/// An occurrence in type position must match the binding's target exactly; in
/// value position it may also name one member of the target type.
pub open spec fn spec_ref_occ_match(
    occ: SpecTypeRef,
    pos: PathPosition,
    target: SpecTypeRef,
    policy: ArgPolicy,
) -> bool {
    match pos {
        PathPosition::TypePosition => spec_ref_exact_match(occ, target, policy),
        PathPosition::ValuePosition => spec_ref_exact_match(occ, target, policy)
            || spec_ref_extends(occ, target, policy),
    }
}

/// The reference is the bare `Self` keyword: a self-rooted path with no
/// further segments and no qualifier.
pub open spec fn spec_is_self_base(r: SpecTypeRef) -> bool {
    match r {
        SpecTypeRef::SelfQualified { qualifier, path } => {
            qualifier is None && path.self_rooted && path.segments.len() == 0
        },
        _ => false,
    }
}

/// The reference routes through the implementing type: its path, its
/// qualifier, or the base of its spine is written through `Self`.
pub open spec fn spec_self_routed(r: SpecTypeRef) -> bool
    decreases r,
{
    match r {
        SpecTypeRef::SelfQualified { qualifier, path } => path.self_rooted || (match qualifier {
            Option::Some(q) => q.self_rooted,
            Option::None => false,
        }),
        SpecTypeRef::TypeRelative { base, member: _ } => spec_self_routed(*base),
        SpecTypeRef::SpecialForm { tag: _ } => false,
    }
}

/// The reference reaches its type through `Self::<name>`, in either of the
/// shapes the host grammar gives that route.
pub open spec fn spec_names_associated(r: SpecTypeRef, name: u64) -> bool
    decreases r,
{
    match r {
        SpecTypeRef::SelfQualified { qualifier: _, path } => {
            path.self_rooted && path.segments.len() > 0 && path.segments[0].name == name
        },
        SpecTypeRef::TypeRelative { base, member } => {
            (spec_is_self_base(*base) && member.name == name) || spec_names_associated(*base, name)
        },
        SpecTypeRef::SpecialForm { tag: _ } => false,
    }
}

/// An occurrence with an enclosing subject context is admitted only when that
/// context routes through the binding's associated-type name; an occurrence
/// with no context is always admitted.
pub open spec fn spec_context_admits(ctx: Option<SpecTypeRef>, name: u64) -> bool {
    match ctx {
        Option::None => true,
        Option::Some(r) => spec_names_associated(r, name),
    }
}

/// The reference is a concrete type path: nowhere routed through `Self` and
/// built of no opaque special form. Only such a reference is worth rewriting
/// through an associated name.
pub open spec fn spec_is_concrete(r: SpecTypeRef) -> bool
    decreases r,
{
    match r {
        SpecTypeRef::SelfQualified { qualifier, path } => !path.self_rooted && (match qualifier {
            Option::Some(q) => !q.self_rooted,
            Option::None => true,
        }),
        SpecTypeRef::TypeRelative { base, member: _ } => spec_is_concrete(*base),
        SpecTypeRef::SpecialForm { tag: _ } => false,
    }
}

/// The full match judgment for one occurrence against one binding.
pub open spec fn spec_matches(occ: SpecOccurrence, b: SpecBinding, policy: ArgPolicy) -> bool {
    spec_context_admits(occ.context, b.name) && spec_ref_occ_match(
        occ.reference,
        occ.position,
        b.target,
        policy,
    )
}

#[verifier::loop_isolation(false)]
pub fn args_match(a: &ArgList, b: &ArgList, policy: ArgPolicy) -> (r: bool)
    ensures
        r == spec_args_match(a@, b@, policy),
    decreases *a,
{
    match (a, b) {
        (ArgList::Elided { arity: n }, ArgList::Elided { arity: m }) => n == m,
        (ArgList::Elided { arity: n }, ArgList::Explicit { args }) => {
            policy == ArgPolicy::Lenient && *n == args.len()
        },
        (ArgList::Explicit { args }, ArgList::Elided { arity: m }) => {
            policy == ArgPolicy::Lenient && args.len() == *m
        },
        (ArgList::Explicit { args: xs }, ArgList::Explicit { args: ys }) => {
            proof {
                crate::model::lemma_view_args(*a);
                crate::model::lemma_view_args(*b);
            }
            let ghost va = a@;
            let ghost vb = b@;
            if xs.len() != ys.len() {
                return false;
            }
            let mut i: usize = 0;
            while i < xs.len()
                invariant
                    i <= xs.len(),
                    forall|k: int| 0 <= k < i ==> spec_path_match(va->args[k], vb->args[k], policy),
                decreases xs.len() - i,
            {
                if !path_match(&xs[i], &ys[i], policy) {
                    proof {
                        assert(va->args[i as int] == xs@[i as int]@);
                        assert(!spec_path_match(va->args[i as int], vb->args[i as int], policy));
                    }
                    return false;
                }
                proof {
                    assert(va->args[i as int] == xs@[i as int]@);
                }
                i += 1;
            }
            true
        },
    }
}

pub fn seg_match(a: &Segment, b: &Segment, policy: ArgPolicy) -> (r: bool)
    ensures
        r == spec_seg_match(a@, b@, policy),
    decreases *a,
{
    a.name == b.name && args_match(&a.args, &b.args, policy)
}

#[verifier::loop_isolation(false)]
pub fn path_match(a: &TypePath, b: &TypePath, policy: ArgPolicy) -> (r: bool)
    ensures
        r == spec_path_match(a@, b@, policy),
    decreases *a,
{
    proof {
        crate::model::lemma_view_path(*a);
        crate::model::lemma_view_path(*b);
    }
    let ghost va = a@;
    let ghost vb = b@;
    if a.self_rooted != b.self_rooted || a.segments.len() != b.segments.len() {
        return false;
    }
    let mut i: usize = 0;
    while i < a.segments.len()
        invariant
            i <= a.segments.len(),
            forall|k: int| 0 <= k < i ==> spec_seg_match(va.segments[k], vb.segments[k], policy),
        decreases a.segments.len() - i,
    {
        if !seg_match(&a.segments[i], &b.segments[i], policy) {
            proof {
                assert(va.segments[i as int] == a.segments@[i as int]@);
                assert(!spec_seg_match(va.segments[i as int], vb.segments[i as int], policy));
            }
            return false;
        }
        proof {
            assert(va.segments[i as int] == a.segments@[i as int]@);
        }
        i += 1;
    }
    true
}

#[verifier::loop_isolation(false)]
pub fn path_extends(a: &TypePath, b: &TypePath, policy: ArgPolicy) -> (r: bool)
    ensures
        r == spec_path_extends(a@, b@, policy),
    decreases *a,
{
    proof {
        crate::model::lemma_view_path(*a);
        crate::model::lemma_view_path(*b);
    }
    let ghost va = a@;
    let ghost vb = b@;
    if a.self_rooted != b.self_rooted || a.segments.len() == 0 || a.segments.len() - 1
        != b.segments.len() {
        return false;
    }
    let mut i: usize = 0;
    while i < b.segments.len()
        invariant
            i <= b.segments.len(),
            forall|k: int| 0 <= k < i ==> spec_seg_match(va.segments[k], vb.segments[k], policy),
        decreases b.segments.len() - i,
    {
        if !seg_match(&a.segments[i], &b.segments[i], policy) {
            proof {
                assert(va.segments[i as int] == a.segments@[i as int]@);
                assert(!spec_seg_match(va.segments[i as int], vb.segments[i as int], policy));
            }
            return false;
        }
        proof {
            assert(va.segments[i as int] == a.segments@[i as int]@);
        }
        i += 1;
    }
    true
}

pub fn qual_match(a: &Option<TypePath>, b: &Option<TypePath>, policy: ArgPolicy) -> (r: bool)
    ensures
        r == spec_qual_match(
            match a {
                Option::Some(x) => Option::Some(x@),
                Option::None => Option::None,
            },
            match b {
                Option::Some(y) => Option::Some(y@),
                Option::None => Option::None,
            },
            policy,
        ),
{
    match (a, b) {
        (Option::None, Option::None) => true,
        (Option::Some(x), Option::Some(y)) => path_match(x, y, policy),
        _ => false,
    }
}

pub fn ref_exact_match(a: &TypeReference, b: &TypeReference, policy: ArgPolicy) -> (r: bool)
    ensures
        r == spec_ref_exact_match(a@, b@, policy),
    decreases *a,
{
    match (a, b) {
        (
            TypeReference::SelfQualified { qualifier: q1, path: p1 },
            TypeReference::SelfQualified { qualifier: q2, path: p2 },
        ) => qual_match(q1, q2, policy) && path_match(p1, p2, policy),
        (
            TypeReference::TypeRelative { base: b1, member: m1 },
            TypeReference::TypeRelative { base: b2, member: m2 },
        ) => ref_exact_match(&**b1, &**b2, policy) && seg_match(m1, m2, policy),
        _ => false,
    }
}

pub fn ref_extends(a: &TypeReference, b: &TypeReference, policy: ArgPolicy) -> (r: bool)
    ensures
        r == spec_ref_extends(a@, b@, policy),
{
    match (a, b) {
        (
            TypeReference::SelfQualified { qualifier: q1, path: p1 },
            TypeReference::SelfQualified { qualifier: q2, path: p2 },
        ) => qual_match(q1, q2, policy) && path_extends(p1, p2, policy),
        (
            TypeReference::TypeRelative { base: b1, member: _ },
            TypeReference::TypeRelative { base: _, member: _ },
        ) => ref_exact_match(&**b1, b, policy),
        _ => false,
    }
}

pub fn ref_occ_match(
    occ: &TypeReference,
    pos: PathPosition,
    target: &TypeReference,
    policy: ArgPolicy,
) -> (r: bool)
    ensures
        r == spec_ref_occ_match(occ@, pos, target@, policy),
{
    match pos {
        PathPosition::TypePosition => ref_exact_match(occ, target, policy),
        PathPosition::ValuePosition => ref_exact_match(occ, target, policy) || ref_extends(
            occ,
            target,
            policy,
        ),
    }
}

pub fn is_concrete(r: &TypeReference) -> (res: bool)
    ensures
        res == spec_is_concrete(r@),
    decreases *r,
{
    match r {
        TypeReference::SelfQualified { qualifier, path } => !path.self_rooted && (match qualifier {
            Option::Some(q) => !q.self_rooted,
            Option::None => true,
        }),
        TypeReference::TypeRelative { base, member: _ } => is_concrete(&**base),
        TypeReference::SpecialForm { tag: _ } => false,
    }
}

pub fn is_self_base(r: &TypeReference) -> (res: bool)
    ensures
        res == spec_is_self_base(r@),
{
    match r {
        TypeReference::SelfQualified { qualifier, path } => {
            qualifier.is_none() && path.self_rooted && path.segments.len() == 0
        },
        _ => false,
    }
}

pub fn names_associated(r: &TypeReference, name: u64) -> (res: bool)
    ensures
        res == spec_names_associated(r@, name),
    decreases *r,
{
    match r {
        TypeReference::SelfQualified { qualifier: _, path } => {
            path.self_rooted && path.segments.len() > 0 && path.segments[0].name == name
        },
        TypeReference::TypeRelative { base, member } => {
            (is_self_base(&**base) && member.name == name) || names_associated(&**base, name)
        },
        TypeReference::SpecialForm { tag: _ } => false,
    }
}

pub fn context_admits(ctx: &Option<TypeReference>, name: u64) -> (res: bool)
    ensures
        res == spec_context_admits(
            match ctx {
                Option::Some(r) => Option::Some(r@),
                Option::None => Option::None,
            },
            name,
        ),
{
    match ctx {
        Option::None => true,
        Option::Some(r) => names_associated(r, name),
    }
}

/// The executable match judgment, proved equal to [`spec_matches`].
pub fn matches_binding(occ: &Occurrence, b: &AssocTypeBinding, policy: ArgPolicy) -> (r: bool)
    ensures
        r == spec_matches(occ@, b@, policy),
{
    context_admits(&occ.context, b.name) && ref_occ_match(
        &occ.reference,
        occ.position,
        &b.target,
        policy,
    )
}

} // verus!
