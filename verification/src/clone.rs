//! Structure-preserving copies of tree values.
//!
//! An occurrence or a finding carries its own copy of the paths it reports,
//! so the copies here are proved to have the same model as their originals.
use vstd::prelude::*;

use crate::model::lemma_view_args;
use crate::model::lemma_view_path;
use crate::model::view_opt_ref;
use crate::tree::ArgList;
use crate::tree::AssocTypeBinding;
use crate::tree::Segment;
use crate::tree::TypePath;
use crate::tree::TypeReference;

verus! {

impl ArgList {
    /// A copy with the same model.
    #[verifier::loop_isolation(false)]
    pub fn deep_clone(&self) -> (r: ArgList)
        ensures
            r@ == self@,
        decreases *self,
    {
        match self {
            ArgList::Elided { arity } => ArgList::Elided { arity: *arity },
            ArgList::Explicit { args } => {
                let mut out: Vec<TypePath> = Vec::new();
                let mut i: usize = 0;
                while i < args.len()
                    invariant
                        i <= args.len(),
                        out@.len() == i as nat,
                        forall|k: int| 0 <= k < i ==> out@[k]@ == args@[k]@,
                    decreases args.len() - i,
                {
                    out.push(args[i].deep_clone());
                    i += 1;
                }
                let r = ArgList::Explicit { args: out };
                proof {
                    lemma_view_args(r);
                    lemma_view_args(*self);
                    assert(self@ is Explicit);
                    assert(r@ is Explicit);
                    assert(r@->args.len() == self@->args.len());
                    assert(forall|k: int|
                        0 <= k < r@->args.len() ==> r@->args[k] == self@->args[k]);
                    assert(r@->args =~= self@->args);
                    assert(r@ =~= self@);
                }
                r
            },
        }
    }
}

impl Segment {
    /// A copy with the same model.
    pub fn deep_clone(&self) -> (r: Segment)
        ensures
            r@ == self@,
        decreases *self,
    {
        Segment { name: self.name, args: self.args.deep_clone() }
    }
}

impl TypePath {
    /// A copy with the same model.
    #[verifier::loop_isolation(false)]
    pub fn deep_clone(&self) -> (r: TypePath)
        ensures
            r@ == self@,
        decreases *self,
    {
        let mut segs: Vec<Segment> = Vec::new();
        let mut i: usize = 0;
        while i < self.segments.len()
            invariant
                i <= self.segments.len(),
                segs@.len() == i as nat,
                forall|k: int| 0 <= k < i ==> segs@[k]@ == self.segments@[k]@,
            decreases self.segments.len() - i,
        {
            segs.push(self.segments[i].deep_clone());
            i += 1;
        }
        let r = TypePath { self_rooted: self.self_rooted, segments: segs };
        proof {
            lemma_view_path(r);
            lemma_view_path(*self);
            assert(r@.segments.len() == self@.segments.len());
            assert(forall|k: int|
                0 <= k < r@.segments.len() ==> r@.segments[k] == self@.segments[k]);
            assert(r@.segments =~= self@.segments);
            assert(r@ =~= self@);
        }
        r
    }
}

impl TypeReference {
    /// A copy with the same model.
    pub fn deep_clone(&self) -> (r: TypeReference)
        ensures
            r@ == self@,
        decreases *self,
    {
        match self {
            TypeReference::SelfQualified { qualifier, path } => {
                let q = match qualifier {
                    Option::Some(p) => Option::Some(p.deep_clone()),
                    Option::None => Option::None,
                };
                TypeReference::SelfQualified { qualifier: q, path: path.deep_clone() }
            },
            TypeReference::TypeRelative { base, member } => TypeReference::TypeRelative {
                base: Box::new((**base).deep_clone()),
                member: member.deep_clone(),
            },
            TypeReference::SpecialForm { tag } => TypeReference::SpecialForm { tag: *tag },
        }
    }
}

/// A copy of an optional reference with the same model.
pub fn clone_ref_opt(o: &Option<TypeReference>) -> (r: Option<TypeReference>)
    ensures
        view_opt_ref(r) == view_opt_ref(*o),
{
    match o {
        Option::Some(t) => Option::Some(t.deep_clone()),
        Option::None => Option::None,
    }
}

impl AssocTypeBinding {
    /// A copy with the same model.
    pub fn deep_clone(&self) -> (r: AssocTypeBinding)
        ensures
            r@ == self@,
    {
        AssocTypeBinding { name: self.name, target: self.target.deep_clone(), span: self.span }
    }
}

} // verus!
