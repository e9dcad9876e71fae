//! The laws of the analysis, proved of the specification the executable
//! pipeline is verified against.
use vstd::prelude::*;

use crate::index::lemma_find_match_mem;
use crate::index::lemma_find_match_none;
use crate::index::lemma_find_match_some_iff;
use crate::index::spec_find_match;
use crate::matcher::spec_args_match;
use crate::matcher::spec_is_concrete;
use crate::matcher::spec_matches;
use crate::matcher::spec_path_match;
use crate::matcher::spec_ref_exact_match;
use crate::matcher::spec_ref_occ_match;
use crate::matcher::spec_seg_match;
use crate::matcher::spec_self_routed;
use crate::model::SpecArgList;
use crate::model::SpecBinding;
use crate::model::SpecImplBlock;
use crate::model::SpecImplMember;
use crate::model::SpecOccurrence;
use crate::model::SpecPath;
use crate::model::SpecSegment;
use crate::model::SpecTypeRef;
use crate::pipeline::spec_analyze_block;
use crate::pipeline::spec_analyze_tree;
use crate::pipeline::spec_block_occs;
use crate::pipeline::spec_occ_findings;
use crate::scanner::spec_scan;
use crate::tree::ArgPolicy;
use crate::tree::PathPosition;

verus! {

pub proof fn lemma_args_match_refl(a: SpecArgList, policy: ArgPolicy)
    ensures
        spec_args_match(a, a, policy),
    decreases a,
{
    match a {
        SpecArgList::Elided { arity: _ } => {},
        SpecArgList::Explicit { args } => {
            assert forall|i: int| 0 <= i < args.len() implies spec_path_match(
                args[i],
                args[i],
                policy,
            ) by {
                lemma_path_match_refl(args[i], policy);
            }
        },
    }
}

pub proof fn lemma_seg_match_refl(s: SpecSegment, policy: ArgPolicy)
    ensures
        spec_seg_match(s, s, policy),
    decreases s,
{
    lemma_args_match_refl(s.args, policy);
}

pub proof fn lemma_path_match_refl(p: SpecPath, policy: ArgPolicy)
    ensures
        spec_path_match(p, p, policy),
    decreases p,
{
    assert forall|i: int| 0 <= i < p.segments.len() implies spec_seg_match(
        p.segments[i],
        p.segments[i],
        policy,
    ) by {
        lemma_seg_match_refl(p.segments[i], policy);
    }
}

/// A concrete reference matches itself exactly, under either policy.
pub proof fn lemma_ref_exact_refl(r: SpecTypeRef, policy: ArgPolicy)
    requires
        spec_is_concrete(r),
    ensures
        spec_ref_exact_match(r, r, policy),
    decreases r,
{
    match r {
        SpecTypeRef::SelfQualified { qualifier, path } => {
            match qualifier {
                Option::Some(q) => lemma_path_match_refl(q, policy),
                Option::None => {},
            }
            lemma_path_match_refl(path, policy);
        },
        SpecTypeRef::TypeRelative { base, member } => {
            lemma_ref_exact_refl(*base, policy);
            lemma_seg_match_refl(member, policy);
        },
        SpecTypeRef::SpecialForm { tag: _ } => {},
    }
}

pub proof fn lemma_concrete_not_self_routed(r: SpecTypeRef)
    requires
        spec_is_concrete(r),
    ensures
        !spec_self_routed(r),
    decreases r,
{
    match r {
        SpecTypeRef::TypeRelative { base, member: _ } => lemma_concrete_not_self_routed(*base),
        SpecTypeRef::SelfQualified { qualifier: _, path: _ } => {},
        SpecTypeRef::SpecialForm { tag: _ } => {},
    }
}

/// Structural equivalence preserves routing through `Self`: a `Self`-routed
/// occurrence can only match a `Self`-routed target.
pub proof fn lemma_exact_match_self_routed(a: SpecTypeRef, b: SpecTypeRef, policy: ArgPolicy)
    requires
        spec_ref_exact_match(a, b, policy),
    ensures
        spec_self_routed(a) == spec_self_routed(b),
    decreases a,
{
    match (a, b) {
        (
            SpecTypeRef::TypeRelative { base: b1, member: _ },
            SpecTypeRef::TypeRelative { base: b2, member: _ },
        ) => lemma_exact_match_self_routed(*b1, *b2, policy),
        _ => {},
    }
}

pub proof fn lemma_occ_match_self_routed(
    a: SpecTypeRef,
    pos: PathPosition,
    b: SpecTypeRef,
    policy: ArgPolicy,
)
    requires
        spec_ref_occ_match(a, pos, b, policy),
    ensures
        spec_self_routed(a) == spec_self_routed(b),
{
    if spec_ref_exact_match(a, b, policy) {
        lemma_exact_match_self_routed(a, b, policy);
    } else {
        match (a, b) {
            (
                SpecTypeRef::TypeRelative { base: b1, member: _ },
                SpecTypeRef::TypeRelative { base: _, member: _ },
            ) => lemma_exact_match_self_routed(*b1, b, policy),
            _ => {},
        }
    }
}

/// Every binding the scanner collects has a concrete target.
pub proof fn lemma_scan_concrete(members: Seq<SpecImplMember>)
    ensures
        forall|j: int|
            0 <= j < spec_scan(members).len() ==> spec_is_concrete(
                (#[trigger] spec_scan(members)[j]).target,
            ),
    decreases members,
{
    if members.len() > 0 {
        lemma_scan_concrete(members.drop_last());
        let prior = spec_scan(members.drop_last());
        assert forall|j: int| 0 <= j < spec_scan(members).len() implies spec_is_concrete(
            (#[trigger] spec_scan(members)[j]).target,
        ) by {
            if j < prior.len() {
                assert(spec_scan(members)[j] == prior[j]);
            }
        }
    }
}

pub proof fn lemma_occ_findings_empty(
    occs: Seq<SpecOccurrence>,
    bs: Seq<SpecBinding>,
    policy: ArgPolicy,
)
    requires
        forall|i: int|
            0 <= i < occs.len() ==> spec_find_match(bs, #[trigger] occs[i], policy) is None,
    ensures
        spec_occ_findings(occs, bs, policy).len() == 0,
    decreases occs.len(),
{
    if occs.len() > 0 {
        assert forall|i: int|
            0 <= i < occs.drop_last().len() implies spec_find_match(
            bs,
            #[trigger] occs.drop_last()[i],
            policy,
        ) is None by {
            assert(occs.drop_last()[i] == occs[i]);
        }
        lemma_occ_findings_empty(occs.drop_last(), bs, policy);
        assert(occs.last() == occs[occs.len() - 1]);
    }
}

/// Idempotence: in a block whose method bodies reference types exclusively
/// through `Self`-routed paths — in particular, through their associated-type
/// names — the analysis yields zero findings.
pub proof fn lemma_idempotence(block: SpecImplBlock, policy: ArgPolicy)
    requires
        forall|i: int|
            0 <= i < spec_block_occs(block.members).len() ==> spec_self_routed(
                (#[trigger] spec_block_occs(block.members)[i]).reference,
            ),
    ensures
        spec_analyze_block(block, policy).len() == 0,
{
    let occs = spec_block_occs(block.members);
    let bs = spec_scan(block.members);
    lemma_scan_concrete(block.members);
    assert forall|i: int| 0 <= i < occs.len() implies spec_find_match(
        bs,
        #[trigger] occs[i],
        policy,
    ) is None by {
        assert forall|j: int| 0 <= j < bs.len() implies !spec_matches(
            occs[i],
            #[trigger] bs[j],
            policy,
        ) by {
            if spec_matches(occs[i], bs[j], policy) {
                lemma_occ_match_self_routed(
                    occs[i].reference,
                    occs[i].position,
                    bs[j].target,
                    policy,
                );
                lemma_concrete_not_self_routed(bs[j].target);
            }
        }
        lemma_find_match_none(bs, occs[i], policy);
    }
    lemma_occ_findings_empty(occs, bs, policy);
}

pub proof fn lemma_occ_findings_from(
    occs: Seq<SpecOccurrence>,
    bs: Seq<SpecBinding>,
    policy: ArgPolicy,
)
    ensures
        forall|k: int|
            0 <= k < spec_occ_findings(occs, bs, policy).len() ==> bs.contains(
                (#[trigger] spec_occ_findings(occs, bs, policy)[k]).binding,
            ) && spec_matches(
                spec_occ_findings(occs, bs, policy)[k].occurrence,
                spec_occ_findings(occs, bs, policy)[k].binding,
                policy,
            ),
    decreases occs.len(),
{
    if occs.len() > 0 {
        lemma_occ_findings_from(occs.drop_last(), bs, policy);
        lemma_find_match_mem(bs, occs.last(), policy);
        let pre = spec_occ_findings(occs.drop_last(), bs, policy);
        assert forall|k: int| 0 <= k < spec_occ_findings(occs, bs, policy).len() implies bs.contains(
            (#[trigger] spec_occ_findings(occs, bs, policy)[k]).binding,
        ) && spec_matches(
            spec_occ_findings(occs, bs, policy)[k].occurrence,
            spec_occ_findings(occs, bs, policy)[k].binding,
            policy,
        ) by {
            if k < pre.len() {
                assert(spec_occ_findings(occs, bs, policy)[k] == pre[k]);
            }
        }
    }
}

/// No cross-block leakage: every finding of a block carries a binding
/// collected from that same block's member list, and one its occurrence
/// matches. A binding of another block — even one aliasing a type of the
/// same name — is never consulted, since the analysis of a block reads
/// nothing else.
pub proof fn lemma_no_cross_block_leakage(block: SpecImplBlock, policy: ArgPolicy)
    ensures
        forall|k: int|
            0 <= k < spec_analyze_block(block, policy).len() ==> spec_scan(block.members).contains(
                (#[trigger] spec_analyze_block(block, policy)[k]).binding,
            ),
{
    lemma_occ_findings_from(spec_block_occs(block.members), spec_scan(block.members), policy);
}

/// The whole-tree form of the same law: every finding of a run over many
/// blocks carries a binding collected from some block of that tree.
pub proof fn lemma_tree_findings_blockwise(blocks: Seq<SpecImplBlock>, policy: ArgPolicy)
    ensures
        forall|k: int|
            0 <= k < spec_analyze_tree(blocks, policy).len() ==> exists|b: int|
                0 <= b < blocks.len() && spec_scan(blocks[b].members).contains(
                    (#[trigger] spec_analyze_tree(blocks, policy)[k]).binding,
                ),
    decreases blocks.len(),
{
    if blocks.len() > 0 {
        lemma_tree_findings_blockwise(blocks.drop_last(), policy);
        lemma_no_cross_block_leakage(blocks.last(), policy);
        let whole = spec_analyze_tree(blocks, policy);
        let pre = spec_analyze_tree(blocks.drop_last(), policy);
        let add = spec_analyze_block(blocks.last(), policy);
        assert forall|k: int| 0 <= k < whole.len() implies exists|b: int|
            0 <= b < blocks.len() && spec_scan(blocks[b].members).contains(
                (#[trigger] whole[k]).binding,
            ) by {
            if k < pre.len() {
                assert(whole[k] == pre[k]);
                let b = choose|b: int|
                    0 <= b < blocks.drop_last().len() && spec_scan(
                        blocks.drop_last()[b].members,
                    ).contains(pre[k].binding);
                assert(blocks.drop_last()[b] == blocks[b]);
                assert(spec_scan(blocks[b].members).contains(whole[k].binding));
            } else {
                assert(whole[k] == add[k - pre.len()]);
                let last = blocks.len() - 1;
                assert(blocks[last] == blocks.last());
                assert(spec_scan(blocks[last].members).contains(whole[k].binding));
            }
        }
    }
}

pub proof fn lemma_occ_findings_complete(
    occs: Seq<SpecOccurrence>,
    bs: Seq<SpecBinding>,
    policy: ArgPolicy,
    i: int,
)
    requires
        0 <= i < occs.len(),
        spec_find_match(bs, occs[i], policy) is Some,
    ensures
        exists|k: int|
            0 <= k < spec_occ_findings(occs, bs, policy).len() && (#[trigger] spec_occ_findings(
                occs,
                bs,
                policy,
            )[k]).occurrence == occs[i],
    decreases occs.len(),
{
    let fs = spec_occ_findings(occs, bs, policy);
    let pre = spec_occ_findings(occs.drop_last(), bs, policy);
    if i == occs.len() - 1 {
        assert(occs.last() == occs[i]);
        assert(fs[pre.len() as int].occurrence == occs[i]);
    } else {
        assert(occs.drop_last()[i] == occs[i]);
        lemma_occ_findings_complete(occs.drop_last(), bs, policy, i);
        let k = choose|k: int|
            0 <= k < pre.len() && (#[trigger] pre[k]).occurrence == occs.drop_last()[i];
        assert(fs[k] == pre[k]);
    }
}

/// Exact-match completeness: every occurrence that matches some collected
/// binding — in particular one structurally identical to a binding's target,
/// see [`lemma_identical_occurrence_matches`] — produces a finding pointing
/// at that occurrence.
pub proof fn lemma_exact_match_completeness(block: SpecImplBlock, policy: ArgPolicy)
    ensures
        forall|i: int|
            #![trigger spec_block_occs(block.members)[i]]
            0 <= i < spec_block_occs(block.members).len() && (exists|j: int|
                0 <= j < spec_scan(block.members).len() && spec_matches(
                    spec_block_occs(block.members)[i],
                    #[trigger] spec_scan(block.members)[j],
                    policy,
                )) ==> exists|k: int|
                0 <= k < spec_analyze_block(block, policy).len() && (#[trigger] spec_analyze_block(
                    block,
                    policy,
                )[k]).occurrence == spec_block_occs(block.members)[i],
{
    let occs = spec_block_occs(block.members);
    let bs = spec_scan(block.members);
    assert forall|i: int|
        0 <= i < occs.len() && (exists|j: int|
            0 <= j < bs.len() && spec_matches(#[trigger] occs[i], #[trigger] bs[j], policy))
        implies exists|k: int|
        0 <= k < spec_analyze_block(block, policy).len() && (#[trigger] spec_analyze_block(
            block,
            policy,
        )[k]).occurrence == occs[i] by {
        lemma_find_match_some_iff(bs, occs[i], policy);
        lemma_occ_findings_complete(occs, bs, policy, i);
        assert(spec_analyze_block(block, policy) == spec_occ_findings(occs, bs, policy));
        let k = choose|k: int|
            0 <= k < spec_occ_findings(occs, bs, policy).len() && (#[trigger] spec_occ_findings(
                occs,
                bs,
                policy,
            )[k]).occurrence == occs[i];
        assert(spec_analyze_block(block, policy)[k].occurrence == occs[i]);
    }
}

/// An occurrence that carries no subject context and is written exactly as a
/// binding's concrete target matches that binding, under either policy and
/// in either position.
pub proof fn lemma_identical_occurrence_matches(
    occ: SpecOccurrence,
    b: SpecBinding,
    policy: ArgPolicy,
)
    requires
        occ.context is None,
        occ.reference == b.target,
        spec_is_concrete(b.target),
    ensures
        spec_matches(occ, b, policy),
{
    lemma_ref_exact_refl(b.target, policy);
}

/// Determinism: the full pipeline is a function of the tree alone, so two
/// runs over an unchanged tree produce the same finding list, order
/// included.
pub proof fn lemma_determinism(
    blocks: Seq<SpecImplBlock>,
    policy: ArgPolicy,
    r1: Seq<crate::model::SpecFinding>,
    r2: Seq<crate::model::SpecFinding>,
)
    requires
        r1 == spec_analyze_tree(blocks, policy),
        r2 == spec_analyze_tree(blocks, policy),
    ensures
        r1 == r2,
{
}

} // verus!
