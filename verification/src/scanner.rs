//! The implementation scanner: the first of the two passes over a block.
//!
//! It walks the member list once and emits one binding for each
//! associated-type member whose right-hand side is a concrete type path. A
//! right-hand side that is a generic parameter, a placeholder, an opaque
//! special form, or a path routed through `Self` cannot be meaningfully
//! compared downstream and silently contributes no binding; a member whose
//! name is already bound is skipped, so the first definition wins. No
//! condition here is an error.
use vstd::prelude::*;

use crate::matcher::is_concrete;
use crate::matcher::spec_is_concrete;
use crate::model::lemma_view_binding_seq_push;
use crate::model::lemma_view_block_members;
use crate::model::view_binding;
use crate::model::view_binding_seq;
use crate::model::SpecAliasTarget;
use crate::model::SpecBinding;
use crate::model::SpecImplMember;
use crate::tree::AliasTarget;
use crate::tree::AssocTypeBinding;
use crate::tree::ImplBlock;
use crate::tree::ImplMember;

verus! {

/// Some binding in the list already carries this name.
pub open spec fn spec_has_name(bs: Seq<SpecBinding>, name: u64) -> bool {
    exists|i: int| 0 <= i < bs.len() && bs[i].name == name
}

/// The bindings one member contributes, given the bindings collected before
/// it: one for a concrete associated-type target under a fresh name, none
/// otherwise.
pub open spec fn spec_member_binding(
    m: SpecImplMember,
    prior: Seq<SpecBinding>,
) -> Seq<SpecBinding> {
    match m {
        SpecImplMember::AssocTypeMember { name, target, span } => match target {
            SpecAliasTarget::PathTarget { reference } => {
                if spec_is_concrete(reference) && !spec_has_name(prior, name) {
                    seq![SpecBinding { name, target: reference, span }]
                } else {
                    Seq::empty()
                }
            },
            SpecAliasTarget::ParamTarget => Seq::empty(),
            SpecAliasTarget::OpaqueTarget => Seq::empty(),
        },
        SpecImplMember::MethodMember { body: _ } => Seq::empty(),
        SpecImplMember::OtherMember => Seq::empty(),
    }
}

/// The ordered binding list of one block's member list.
pub open spec fn spec_scan(members: Seq<SpecImplMember>) -> Seq<SpecBinding>
    decreases members,
{
    if members.len() == 0 {
        Seq::empty()
    } else {
        let prior = spec_scan(members.drop_last());
        prior + spec_member_binding(members.last(), prior)
    }
}

#[verifier::loop_isolation(false)]
fn has_name(bs: &Vec<AssocTypeBinding>, name: u64) -> (r: bool)
    ensures
        r == spec_has_name(view_binding_seq(bs@), name),
{
    let mut i: usize = 0;
    while i < bs.len()
        invariant
            i <= bs.len(),
            forall|k: int| 0 <= k < i ==> view_binding_seq(bs@)[k].name != name,
        decreases bs.len() - i,
    {
        if bs[i].name == name {
            proof {
                assert(view_binding_seq(bs@)[i as int].name == name);
            }
            return true;
        }
        proof {
            assert(view_binding_seq(bs@)[i as int] == view_binding(bs@[i as int]));
        }
        i += 1;
    }
    false
}

/// The first pass: collects the associated-type bindings of one block, in
/// member order, first definition winning on a repeated name.
#[verifier::loop_isolation(false)]
pub fn scan(block: &ImplBlock) -> (bindings: Vec<AssocTypeBinding>)
    ensures
        view_binding_seq(bindings@) == spec_scan(block@.members),
{
    proof {
        lemma_view_block_members(*block);
    }
    let ghost vmembers = block@.members;
    let mut out: Vec<AssocTypeBinding> = Vec::new();
    let mut i: usize = 0;
    proof {
        assert(view_binding_seq(out@) =~= spec_scan(vmembers.take(0)));
    }
    while i < block.members.len()
        invariant
            i <= block.members.len(),
            view_binding_seq(out@) == spec_scan(vmembers.take(i as int)),
        decreases block.members.len() - i,
    {
        match &block.members[i] {
            ImplMember::AssocTypeMember { name, target, span } => {
                match target {
                    AliasTarget::PathTarget { reference } => {
                        if is_concrete(reference) && !has_name(&out, *name) {
                            let ghost pre = out@;
                            let b = AssocTypeBinding {
                                name: *name,
                                target: reference.deep_clone(),
                                span: *span,
                            };
                            out.push(b);
                            proof {
                                lemma_view_binding_seq_push(pre, b);
                            }
                        }
                    },
                    AliasTarget::ParamTarget => {},
                    AliasTarget::OpaqueTarget => {},
                }
            },
            ImplMember::MethodMember { body: _ } => {},
            ImplMember::OtherMember => {},
        }
        proof {
            assert(vmembers.take(i + 1).drop_last() =~= vmembers.take(i as int));
            assert(vmembers.take(i + 1).last() == crate::model::view_member(
                block.members@[i as int],
            ));
            assert(view_binding_seq(out@) =~= spec_scan(vmembers.take(i + 1)));
        }
        i += 1;
    }
    proof {
        assert(vmembers.take(block.members@.len() as int) =~= vmembers);
    }
    out
}

} // verus!
