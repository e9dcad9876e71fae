//! The binding index: the collected bindings of one block, ready for
//! structural lookup.
//!
//! Lookup returns the first registered binding that matches an occurrence,
//! so when two associated types alias overlapping concrete forms the earlier
//! member wins.
use vstd::prelude::*;

use crate::matcher::matches_binding;
use crate::matcher::spec_matches;
use crate::model::view_binding_seq;
use crate::model::SpecBinding;
use crate::model::SpecOccurrence;
use crate::tree::ArgPolicy;
use crate::tree::AssocTypeBinding;
use crate::tree::Occurrence;

verus! {

/// The first binding of the list that the occurrence matches, if any.
pub open spec fn spec_find_match(
    bs: Seq<SpecBinding>,
    occ: SpecOccurrence,
    policy: ArgPolicy,
) -> Option<SpecBinding>
    decreases bs,
{
    if bs.len() == 0 {
        Option::None
    } else if spec_matches(occ, bs[0], policy) {
        Option::Some(bs[0])
    } else {
        spec_find_match(bs.drop_first(), occ, policy)
    }
}

/// When nothing matches, the lookup is empty.
pub proof fn lemma_find_match_none(bs: Seq<SpecBinding>, occ: SpecOccurrence, policy: ArgPolicy)
    requires
        forall|j: int| 0 <= j < bs.len() ==> !spec_matches(occ, #[trigger] bs[j], policy),
    ensures
        spec_find_match(bs, occ, policy) is None,
    decreases bs.len(),
{
    if bs.len() > 0 {
        lemma_find_match_none(bs.drop_first(), occ, policy);
    }
}

/// The lookup returns the earliest match.
pub proof fn lemma_find_match_first(
    bs: Seq<SpecBinding>,
    occ: SpecOccurrence,
    policy: ArgPolicy,
    i: int,
)
    requires
        0 <= i < bs.len(),
        spec_matches(occ, bs[i], policy),
        forall|j: int| 0 <= j < i ==> !spec_matches(occ, #[trigger] bs[j], policy),
    ensures
        spec_find_match(bs, occ, policy) == Option::Some(bs[i]),
    decreases i,
{
    if i > 0 {
        lemma_find_match_first(bs.drop_first(), occ, policy, i - 1);
    }
}

/// Whatever the lookup returns was in the list and matches the occurrence.
pub proof fn lemma_find_match_mem(bs: Seq<SpecBinding>, occ: SpecOccurrence, policy: ArgPolicy)
    ensures
        spec_find_match(bs, occ, policy) matches Option::Some(b) ==> bs.contains(b)
            && spec_matches(occ, b, policy),
    decreases bs.len(),
{
    if bs.len() > 0 && !spec_matches(occ, bs[0], policy) {
        lemma_find_match_mem(bs.drop_first(), occ, policy);
        if spec_find_match(bs, occ, policy) is Some {
            let b = spec_find_match(bs, occ, policy)->0;
            let j = choose|j: int| 0 <= j < bs.drop_first().len() && bs.drop_first()[j] == b;
            assert(bs[j + 1] == b);
        }
    }
}

/// The lookup succeeds exactly when some binding matches.
pub proof fn lemma_find_match_some_iff(bs: Seq<SpecBinding>, occ: SpecOccurrence, policy: ArgPolicy)
    ensures
        (spec_find_match(bs, occ, policy) is Some) <==> exists|j: int|
            0 <= j < bs.len() && spec_matches(occ, #[trigger] bs[j], policy),
    decreases bs.len(),
{
    if bs.len() > 0 && !spec_matches(occ, bs[0], policy) {
        lemma_find_match_some_iff(bs.drop_first(), occ, policy);
        if exists|j: int| 0 <= j < bs.len() && spec_matches(occ, #[trigger] bs[j], policy) {
            let j = choose|j: int| 0 <= j < bs.len() && spec_matches(occ, #[trigger] bs[j], policy);
            assert(bs.drop_first()[j - 1] == bs[j]);
        }
    }
}

/// The collected bindings of one block, with the policy the matcher applies.
/// Built once, after collection for the block has fully completed, and read
/// only while that same block is scanned.
pub struct BindingIndex {
    bindings: Vec<AssocTypeBinding>,
    policy: ArgPolicy,
}

impl BindingIndex {
    /// The model of the indexed binding list, in registration order.
    pub closed spec fn bindings_model(&self) -> Seq<SpecBinding> {
        view_binding_seq(self.bindings@)
    }

    /// The generic-argument policy the index applies.
    pub closed spec fn policy_model(&self) -> ArgPolicy {
        self.policy
    }

    /// Wraps a collected binding list. Collection must be complete: lookups
    /// consult exactly the list given here.
    pub fn build(bindings: Vec<AssocTypeBinding>, policy: ArgPolicy) -> (idx: BindingIndex)
        ensures
            idx.bindings_model() == view_binding_seq(bindings@),
            idx.policy_model() == policy,
    {
        BindingIndex { bindings, policy }
    }

    /// The first registered binding the occurrence matches, copied out, or
    /// nothing.
    #[verifier::loop_isolation(false)]
    pub fn find_match(&self, occ: &Occurrence) -> (r: Option<AssocTypeBinding>)
        ensures
            match r {
                Option::Some(b) => spec_find_match(self.bindings_model(), occ@, self.policy_model())
                    == Option::Some(b@),
                Option::None => spec_find_match(self.bindings_model(), occ@, self.policy_model())
                    is None,
            },
    {
        let mut i: usize = 0;
        while i < self.bindings.len()
            invariant
                i <= self.bindings.len(),
                forall|k: int|
                    0 <= k < i ==> !spec_matches(occ@, #[trigger] self.bindings_model()[k],
                    self.policy),
            decreases self.bindings.len() - i,
        {
            if matches_binding(occ, &self.bindings[i], self.policy) {
                proof {
                    assert(self.bindings_model()[i as int] == self.bindings@[i as int]@);
                    lemma_find_match_first(self.bindings_model(), occ@, self.policy, i as int);
                }
                return Option::Some(self.bindings[i].deep_clone());
            }
            proof {
                assert(self.bindings_model()[i as int] == self.bindings@[i as int]@);
            }
            i += 1;
        }
        proof {
            lemma_find_match_none(self.bindings_model(), occ@, self.policy);
        }
        Option::None
    }
}

} // verus!
