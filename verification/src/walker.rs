//! The body walker: produces the sequence of type-path occurrences inside one
//! method body, in source order.
//!
//! The walker visits destructuring-pattern subjects and their arm paths,
//! qualified path expressions, and explicit type annotations. It attempts no
//! semantic resolution: each occurrence carries the path exactly as written,
//! together with the declared type of the enclosing destructured subject, and
//! judgment is deferred to the matcher. Each traversal is a pure function of
//! the body: re-deriving it gives the same sequence, and no state is shared
//! between bodies.
use vstd::prelude::*;

use crate::clone::clone_ref_opt;
use crate::model::lemma_view_body_params;
use crate::model::lemma_view_expr_nodes;
use crate::model::lemma_view_occ_seq_push;
use crate::model::lemma_view_pattern_fields;
use crate::model::view_occ_seq;
use crate::model::view_occurrence;
use crate::model::view_opt_ref;
use crate::model::SpecArm;
use crate::model::SpecExpr;
use crate::model::SpecMethodBody;
use crate::model::SpecOccurrence;
use crate::model::SpecParam;
use crate::model::SpecPattern;
use crate::model::SpecTypeRef;
use crate::tree::Expr;
use crate::tree::MethodBody;
use crate::tree::Occurrence;
use crate::tree::PathPosition;
use crate::tree::Pattern;
use crate::tree::TypeReference;

verus! {

/// The occurrences contributed by one pattern, outermost path first. Every
/// pattern path stands in value position and carries the declared type `ctx`
/// of the value being destructured.
pub open spec fn spec_pattern_occs(p: SpecPattern, ctx: Option<SpecTypeRef>) -> Seq<SpecOccurrence>
    decreases p,
{
    match p {
        SpecPattern::PathPat { reference, span } => seq![
            SpecOccurrence {
                reference,
                context: ctx,
                position: PathPosition::ValuePosition,
                span,
            },
        ],
        SpecPattern::DestructPat { reference, span, fields } => seq![
            SpecOccurrence {
                reference,
                context: ctx,
                position: PathPosition::ValuePosition,
                span,
            },
        ] + spec_patterns_occs(fields, ctx),
        SpecPattern::BindingPat => Seq::empty(),
        SpecPattern::WildPat => Seq::empty(),
    }
}

pub open spec fn spec_patterns_occs(
    ps: Seq<SpecPattern>,
    ctx: Option<SpecTypeRef>,
) -> Seq<SpecOccurrence>
    decreases ps,
{
    if ps.len() == 0 {
        Seq::empty()
    } else {
        spec_patterns_occs(ps.drop_last(), ctx) + spec_pattern_occs(ps.last(), ctx)
    }
}

/// The occurrences contributed by one expression, in source order. A type
/// annotation stands in type position with no enclosing context; a value
/// path stands in value position with no enclosing context; arm patterns
/// carry the declared type of the destructured subject as their context.
pub open spec fn spec_expr_occs(e: SpecExpr) -> Seq<SpecOccurrence>
    decreases e,
{
    match e {
        SpecExpr::MatchExpr { subject, subject_annotation, arms } => spec_expr_occs(*subject)
            + spec_arms_occs(arms, subject_annotation),
        SpecExpr::TypedExpr { annotation, span, inner } => seq![
            SpecOccurrence {
                reference: annotation,
                context: Option::None,
                position: PathPosition::TypePosition,
                span,
            },
        ] + spec_expr_occs(*inner),
        SpecExpr::PathExpr { reference, span } => seq![
            SpecOccurrence {
                reference,
                context: Option::None,
                position: PathPosition::ValuePosition,
                span,
            },
        ],
        SpecExpr::CompoundExpr { children } => spec_exprs_occs(children),
        SpecExpr::LeafExpr => Seq::empty(),
    }
}

pub open spec fn spec_arms_occs(arms: Seq<SpecArm>, ctx: Option<SpecTypeRef>) -> Seq<SpecOccurrence>
    decreases arms,
{
    if arms.len() == 0 {
        Seq::empty()
    } else {
        spec_arms_occs(arms.drop_last(), ctx) + spec_pattern_occs(arms.last().pattern, ctx)
            + spec_expr_occs(arms.last().body)
    }
}

pub open spec fn spec_exprs_occs(es: Seq<SpecExpr>) -> Seq<SpecOccurrence>
    decreases es,
{
    if es.len() == 0 {
        Seq::empty()
    } else {
        spec_exprs_occs(es.drop_last()) + spec_expr_occs(es.last())
    }
}

/// The occurrences contributed by one parameter: its pattern, destructuring a
/// value whose declared type is the parameter's annotation.
pub open spec fn spec_param_occs(p: SpecParam) -> Seq<SpecOccurrence> {
    spec_pattern_occs(p.pattern, p.annotation)
}

pub open spec fn spec_params_occs(ps: Seq<SpecParam>) -> Seq<SpecOccurrence>
    decreases ps,
{
    if ps.len() == 0 {
        Seq::empty()
    } else {
        spec_params_occs(ps.drop_last()) + spec_param_occs(ps.last())
    }
}

/// Every occurrence of one method body: the parameter patterns first, then
/// the body expression, in source order.
pub open spec fn spec_body_occs(b: SpecMethodBody) -> Seq<SpecOccurrence> {
    spec_params_occs(b.params) + spec_expr_occs(b.root)
}

#[verifier::loop_isolation(false)]
fn push_pattern_occs(p: &Pattern, ctx: &Option<TypeReference>, out: &mut Vec<Occurrence>)
    ensures
        view_occ_seq(final(out)@) == view_occ_seq(old(out)@) + spec_pattern_occs(
            p@,
            view_opt_ref(*ctx),
        ),
    decreases *p,
{
    let ghost vctx = view_opt_ref(*ctx);
    match p {
        Pattern::PathPat { reference, span } => {
            let occ = Occurrence {
                reference: reference.deep_clone(),
                context: clone_ref_opt(ctx),
                position: PathPosition::ValuePosition,
                span: *span,
            };
            let ghost vocc = view_occurrence(occ);
            let ghost pre = out@;
            out.push(occ);
            proof {
                lemma_view_occ_seq_push(pre, occ);
                assert(spec_pattern_occs(p@, vctx) =~= seq![vocc]);
            }
        },
        Pattern::DestructPat { reference, span, fields } => {
            let occ = Occurrence {
                reference: reference.deep_clone(),
                context: clone_ref_opt(ctx),
                position: PathPosition::ValuePosition,
                span: *span,
            };
            let ghost vocc = view_occurrence(occ);
            let ghost pre = out@;
            out.push(occ);
            proof {
                lemma_view_occ_seq_push(pre, occ);
                lemma_view_pattern_fields(*p);
            }
            let ghost vfields = p@->fields;
            let mut i: usize = 0;
            while i < fields.len()
                invariant
                    i <= fields.len(),
                    view_occ_seq(out@) == view_occ_seq(pre) + seq![vocc] + spec_patterns_occs(
                        vfields.take(i as int),
                        vctx,
                    ),
                decreases fields.len() - i,
            {
                push_pattern_occs(&fields[i], ctx, out);
                proof {
                    assert(vfields.take(i + 1).drop_last() =~= vfields.take(i as int));
                    assert(vfields.take(i + 1).last() == crate::model::view_pattern(fields@[i as int]));
                    assert(view_occ_seq(out@) =~= view_occ_seq(pre) + seq![vocc]
                        + spec_patterns_occs(vfields.take(i + 1), vctx));
                }
                i += 1;
            }
            proof {
                assert(vfields.take(fields@.len() as int) =~= vfields);
                assert(view_occ_seq(out@) =~= view_occ_seq(pre) + spec_pattern_occs(p@, vctx));
            }
        },
        Pattern::BindingPat => {
            proof {
                assert(view_occ_seq(out@) =~= view_occ_seq(out@) + spec_pattern_occs(p@, vctx));
            }
        },
        Pattern::WildPat => {
            proof {
                assert(view_occ_seq(out@) =~= view_occ_seq(out@) + spec_pattern_occs(p@, vctx));
            }
        },
    }
}

#[verifier::loop_isolation(false)]
fn push_expr_occs(e: &Expr, out: &mut Vec<Occurrence>)
    ensures
        view_occ_seq(final(out)@) == view_occ_seq(old(out)@) + spec_expr_occs(e@),
    decreases *e,
{
    match e {
        Expr::MatchExpr { subject, subject_annotation, arms } => {
            proof {
                lemma_view_expr_nodes(*e);
            }
            let ghost pre = out@;
            let ghost vctx = view_opt_ref(*subject_annotation);
            let ghost varms = e@->arms;
            push_expr_occs(&**subject, out);
            let ghost after_subject = view_occ_seq(out@);
            let mut i: usize = 0;
            while i < arms.len()
                invariant
                    i <= arms.len(),
                    view_occ_seq(out@) == after_subject + spec_arms_occs(
                        varms.take(i as int),
                        vctx,
                    ),
                decreases arms.len() - i,
            {
                push_pattern_occs(&arms[i].pattern, subject_annotation, out);
                push_expr_occs(&arms[i].body, out);
                proof {
                    assert(varms.take(i + 1).drop_last() =~= varms.take(i as int));
                    assert(varms.take(i + 1).last() == crate::model::view_arm(arms@[i as int]));
                    assert(view_occ_seq(out@) =~= after_subject + spec_arms_occs(
                        varms.take(i + 1),
                        vctx,
                    ));
                }
                i += 1;
            }
            proof {
                assert(varms.take(arms@.len() as int) =~= varms);
                assert(view_occ_seq(out@) =~= view_occ_seq(pre) + spec_expr_occs(e@));
            }
        },
        Expr::TypedExpr { annotation, span, inner } => {
            let occ = Occurrence {
                reference: annotation.deep_clone(),
                context: Option::None,
                position: PathPosition::TypePosition,
                span: *span,
            };
            let ghost vocc = view_occurrence(occ);
            let ghost pre = out@;
            out.push(occ);
            proof {
                lemma_view_occ_seq_push(pre, occ);
            }
            push_expr_occs(&**inner, out);
            proof {
                assert(spec_expr_occs(e@) =~= seq![vocc] + spec_expr_occs((*inner)@));
                assert(view_occ_seq(out@) =~= view_occ_seq(pre) + spec_expr_occs(e@));
            }
        },
        Expr::PathExpr { reference, span } => {
            let occ = Occurrence {
                reference: reference.deep_clone(),
                context: Option::None,
                position: PathPosition::ValuePosition,
                span: *span,
            };
            let ghost vocc = view_occurrence(occ);
            let ghost pre = out@;
            out.push(occ);
            proof {
                lemma_view_occ_seq_push(pre, occ);
                assert(spec_expr_occs(e@) =~= seq![vocc]);
            }
        },
        Expr::CompoundExpr { children } => {
            proof {
                lemma_view_expr_nodes(*e);
            }
            let ghost pre = out@;
            let ghost vkids = e@->children;
            let mut i: usize = 0;
            while i < children.len()
                invariant
                    i <= children.len(),
                    view_occ_seq(out@) == view_occ_seq(pre) + spec_exprs_occs(
                        vkids.take(i as int),
                    ),
                decreases children.len() - i,
            {
                push_expr_occs(&children[i], out);
                proof {
                    assert(vkids.take(i + 1).drop_last() =~= vkids.take(i as int));
                    assert(vkids.take(i + 1).last() == crate::model::view_expr(children@[i as int]));
                    assert(view_occ_seq(out@) =~= view_occ_seq(pre) + spec_exprs_occs(
                        vkids.take(i + 1),
                    ));
                }
                i += 1;
            }
            proof {
                assert(vkids.take(children@.len() as int) =~= vkids);
                assert(view_occ_seq(out@) =~= view_occ_seq(pre) + spec_expr_occs(e@));
            }
        },
        Expr::LeafExpr => {
            proof {
                assert(view_occ_seq(out@) =~= view_occ_seq(out@) + spec_expr_occs(e@));
            }
        },
    }
}

/// Walks one method body and returns its occurrences, in source order. The
/// result is a pure function of the body, so a traversal can be re-derived
/// at will and two traversals of the same body agree.
#[verifier::loop_isolation(false)]
pub fn traverse(body: &MethodBody) -> (occs: Vec<Occurrence>)
    ensures
        view_occ_seq(occs@) == spec_body_occs(body@),
{
    proof {
        lemma_view_body_params(*body);
    }
    let ghost vparams = body@.params;
    let mut out: Vec<Occurrence> = Vec::new();
    let mut i: usize = 0;
    proof {
        assert(view_occ_seq(out@) =~= spec_params_occs(vparams.take(0)));
    }
    while i < body.params.len()
        invariant
            i <= body.params.len(),
            view_occ_seq(out@) == spec_params_occs(vparams.take(i as int)),
        decreases body.params.len() - i,
    {
        push_pattern_occs(&body.params[i].pattern, &body.params[i].annotation, &mut out);
        proof {
            assert(vparams.take(i + 1).drop_last() =~= vparams.take(i as int));
            assert(vparams.take(i + 1).last() == crate::model::view_param(
                body.params@[i as int],
            ));
            assert(view_occ_seq(out@) =~= spec_params_occs(vparams.take(i + 1)));
        }
        i += 1;
    }
    push_expr_occs(&body.root, &mut out);
    proof {
        assert(vparams.take(body.params@.len() as int) =~= vparams);
        assert(view_occ_seq(out@) =~= spec_body_occs(body@));
    }
    out
}

} // verus!
