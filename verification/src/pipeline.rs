//! The per-block pipeline and the whole-tree run.
//!
//! For each implementation block the two passes run strictly in order:
//! collection of the bindings fully completes before any method body is
//! scanned, realized as two pure functions joined by the immutable binding
//! list. Blocks contribute their findings in tree order, and within a block
//! findings come in occurrence order, so one input tree has exactly one
//! output list.
use vstd::prelude::*;

use crate::index::spec_find_match;
use crate::index::BindingIndex;
use crate::model::lemma_view_block_members;
use crate::model::lemma_view_finding_seq_push;
use crate::model::view_block_seq;
use crate::model::view_finding_seq;
use crate::model::SpecBinding;
use crate::model::SpecFinding;
use crate::model::SpecImplBlock;
use crate::model::SpecImplMember;
use crate::model::SpecOccurrence;
use crate::scanner::scan;
use crate::scanner::spec_scan;
use crate::tree::ArgPolicy;
use crate::tree::Finding;
use crate::tree::ImplBlock;
use crate::tree::ImplMember;
use crate::tree::Occurrence;
use crate::walker::spec_body_occs;
use crate::walker::traverse;

verus! {

/// The findings of a run over a sequence of occurrences: one per occurrence
/// that matches a binding, carrying the first binding it matches, in
/// occurrence order.
pub open spec fn spec_occ_findings(
    occs: Seq<SpecOccurrence>,
    bs: Seq<SpecBinding>,
    policy: ArgPolicy,
) -> Seq<SpecFinding>
    decreases occs,
{
    if occs.len() == 0 {
        Seq::empty()
    } else {
        spec_occ_findings(occs.drop_last(), bs, policy) + (match spec_find_match(
            bs,
            occs.last(),
            policy,
        ) {
            Option::Some(b) => seq![SpecFinding { occurrence: occs.last(), binding: b }],
            Option::None => Seq::empty(),
        })
    }
}

/// Every occurrence of every method body of the member list, in source order.
pub open spec fn spec_block_occs(members: Seq<SpecImplMember>) -> Seq<SpecOccurrence>
    decreases members,
{
    if members.len() == 0 {
        Seq::empty()
    } else {
        spec_block_occs(members.drop_last()) + (match members.last() {
            SpecImplMember::MethodMember { body } => spec_body_occs(body),
            SpecImplMember::AssocTypeMember { name: _, target: _, span: _ } => Seq::empty(),
            SpecImplMember::OtherMember => Seq::empty(),
        })
    }
}

/// What one block's analysis returns: collect the bindings of the whole
/// member list, then judge every occurrence of the block's method bodies
/// against them.
pub open spec fn spec_analyze_block(block: SpecImplBlock, policy: ArgPolicy) -> Seq<SpecFinding> {
    spec_occ_findings(spec_block_occs(block.members), spec_scan(block.members), policy)
}

/// What a whole-tree run returns: each block's findings, blocks in tree
/// order. No binding of one block is consulted for another.
pub open spec fn spec_analyze_tree(blocks: Seq<SpecImplBlock>, policy: ArgPolicy) -> Seq<
    SpecFinding,
>
    decreases blocks,
{
    if blocks.len() == 0 {
        Seq::empty()
    } else {
        spec_analyze_tree(blocks.drop_last(), policy) + spec_analyze_block(blocks.last(), policy)
    }
}

/// Findings over a concatenation split into findings over the parts.
pub proof fn lemma_occ_findings_concat(
    s1: Seq<SpecOccurrence>,
    s2: Seq<SpecOccurrence>,
    bs: Seq<SpecBinding>,
    policy: ArgPolicy,
)
    ensures
        spec_occ_findings(s1 + s2, bs, policy) == spec_occ_findings(s1, bs, policy)
            + spec_occ_findings(s2, bs, policy),
    decreases s2.len(),
{
    if s2.len() == 0 {
        assert(s1 + s2 =~= s1);
        assert(spec_occ_findings(s1, bs, policy) + spec_occ_findings(s2, bs, policy)
            =~= spec_occ_findings(s1, bs, policy));
    } else {
        lemma_occ_findings_concat(s1, s2.drop_last(), bs, policy);
        assert((s1 + s2).drop_last() =~= s1 + s2.drop_last());
        assert((s1 + s2).last() == s2.last());
        assert(spec_occ_findings(s1 + s2, bs, policy) =~= spec_occ_findings(s1, bs, policy)
            + spec_occ_findings(s2, bs, policy));
    }
}

/// Analyzes one implementation block: the full two-pass run, collection
/// strictly before scanning.
#[verifier::loop_isolation(false)]
pub fn analyze_block(block: &ImplBlock, policy: ArgPolicy) -> (findings: Vec<Finding>)
    ensures
        view_finding_seq(findings@) == spec_analyze_block(block@, policy),
{
    proof {
        lemma_view_block_members(*block);
    }
    let ghost vmembers = block@.members;
    let ghost vbs = spec_scan(block@.members);
    let bindings = scan(block);
    let index = BindingIndex::build(bindings, policy);
    let mut findings: Vec<Finding> = Vec::new();
    let mut i: usize = 0;
    proof {
        assert(view_finding_seq(findings@) =~= spec_occ_findings(
            spec_block_occs(vmembers.take(0)),
            vbs,
            policy,
        ));
    }
    while i < block.members.len()
        invariant
            i <= block.members.len(),
            index.bindings_model() == vbs,
            index.policy_model() == policy,
            view_finding_seq(findings@) == spec_occ_findings(
                spec_block_occs(vmembers.take(i as int)),
                vbs,
                policy,
            ),
        decreases block.members.len() - i,
    {
        let ghost prior_occs = spec_block_occs(vmembers.take(i as int));
        match &block.members[i] {
            ImplMember::MethodMember { body } => {
                let occs = traverse(body);
                let ghost voccs = spec_body_occs(body@);
                let ghost base = view_finding_seq(findings@);
                let mut j: usize = 0;
                proof {
                    assert(base + spec_occ_findings(voccs.take(0), vbs, policy) =~= base);
                }
                while j < occs.len()
                    invariant
                        j <= occs.len(),
                        index.bindings_model() == vbs,
                        index.policy_model() == policy,
                        crate::model::view_occ_seq(occs@) == voccs,
                        view_finding_seq(findings@) == base + spec_occ_findings(
                            voccs.take(j as int),
                            vbs,
                            policy,
                        ),
                    decreases occs.len() - j,
                {
                    let found = index.find_match(&occs[j]);
                    proof {
                        assert(voccs[j as int] == occs@[j as int]@);
                        assert(voccs.take(j + 1).drop_last() =~= voccs.take(j as int));
                        assert(voccs.take(j + 1).last() == voccs[j as int]);
                    }
                    match found {
                        Option::Some(binding) => {
                            let occ = take_occurrence(&occs, j);
                            let f = Finding { occurrence: occ, binding };
                            let ghost pre = findings@;
                            findings.push(f);
                            proof {
                                lemma_view_finding_seq_push(pre, f);
                                assert(view_finding_seq(findings@) =~= base + spec_occ_findings(
                                    voccs.take(j + 1),
                                    vbs,
                                    policy,
                                ));
                            }
                        },
                        Option::None => {
                            proof {
                                assert(view_finding_seq(findings@) =~= base + spec_occ_findings(
                                    voccs.take(j + 1),
                                    vbs,
                                    policy,
                                ));
                            }
                        },
                    }
                    j += 1;
                }
                proof {
                    assert(voccs.take(occs@.len() as int) =~= voccs);
                    lemma_occ_findings_concat(prior_occs, voccs, vbs, policy);
                }
            },
            ImplMember::AssocTypeMember { name: _, target: _, span: _ } => {},
            ImplMember::OtherMember => {},
        }
        proof {
            assert(vmembers.take(i + 1).drop_last() =~= vmembers.take(i as int));
            assert(vmembers.take(i + 1).last() == crate::model::view_member(
                block.members@[i as int],
            ));
            assert(view_finding_seq(findings@) =~= spec_occ_findings(
                spec_block_occs(vmembers.take(i + 1)),
                vbs,
                policy,
            ));
        }
        i += 1;
    }
    proof {
        assert(vmembers.take(block.members@.len() as int) =~= vmembers);
    }
    findings
}

/// Copies one occurrence out of a traversal result.
fn take_occurrence(occs: &Vec<Occurrence>, j: usize) -> (r: Occurrence)
    requires
        j < occs@.len(),
    ensures
        r@ == occs@[j as int]@,
{
    let o = &occs[j];
    Occurrence {
        reference: o.reference.deep_clone(),
        context: crate::clone::clone_ref_opt(&o.context),
        position: o.position,
        span: o.span,
    }
}

/// Analyzes a whole tree of implementation blocks, in tree order. Each block
/// is analyzed independently, against its own bindings only, and the
/// per-block results are joined in a fixed order, so one tree gives one
/// output list.
#[verifier::loop_isolation(false)]
pub fn analyze_tree(blocks: &Vec<ImplBlock>, policy: ArgPolicy) -> (findings: Vec<Finding>)
    ensures
        view_finding_seq(findings@) == spec_analyze_tree(view_block_seq(blocks@), policy),
{
    let ghost vblocks = view_block_seq(blocks@);
    let mut findings: Vec<Finding> = Vec::new();
    let mut i: usize = 0;
    proof {
        assert(view_finding_seq(findings@) =~= spec_analyze_tree(vblocks.take(0), policy));
    }
    while i < blocks.len()
        invariant
            i <= blocks.len(),
            view_finding_seq(findings@) == spec_analyze_tree(vblocks.take(i as int), policy),
        decreases blocks.len() - i,
    {
        let mut block_findings = analyze_block(&blocks[i], policy);
        let ghost pre = findings@;
        let ghost added = block_findings@;
        findings.append(&mut block_findings);
        proof {
            crate::model::lemma_view_finding_seq_concat(pre, added);
            assert(vblocks[i as int] == blocks@[i as int]@);
            assert(vblocks.take(i + 1).drop_last() =~= vblocks.take(i as int));
            assert(vblocks.take(i + 1).last() == vblocks[i as int]);
            assert(view_finding_seq(findings@) =~= spec_analyze_tree(
                vblocks.take(i + 1),
                policy,
            ));
        }
        i += 1;
    }
    proof {
        assert(vblocks.take(blocks@.len() as int) =~= vblocks);
    }
    findings
}

} // verus!
