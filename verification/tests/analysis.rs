use assoc_type_lint::pipeline::analyze_block;
use assoc_type_lint::pipeline::analyze_tree;
use assoc_type_lint::scanner::scan;
use assoc_type_lint::tree::AliasTarget;
use assoc_type_lint::tree::ArgList;
use assoc_type_lint::tree::ArgPolicy;
use assoc_type_lint::tree::Arm;
use assoc_type_lint::tree::Expr;
use assoc_type_lint::tree::ImplBlock;
use assoc_type_lint::tree::ImplMember;
use assoc_type_lint::tree::MethodBody;
use assoc_type_lint::tree::Param;
use assoc_type_lint::tree::Pattern;
use assoc_type_lint::tree::Segment;
use assoc_type_lint::tree::Span;
use assoc_type_lint::tree::TypePath;
use assoc_type_lint::tree::TypeReference;

const ASSOCIATED: u64 = 1;
const STATE: u64 = 2;
const VAR_A: u64 = 3;
const VAR_B: u64 = 4;
const VAR_C: u64 = 5;
const VALUE: u64 = 6;
const OTHER: u64 = 7;
const PARAM_T: u64 = 8;

fn sp(n: u64) -> Span {
    Span { file: 1, line: n, column: 1, byte_start: n * 100, byte_end: n * 100 + 10 }
}

fn seg(name: u64) -> Segment {
    Segment { name, args: ArgList::Elided { arity: 0 } }
}

fn plain_path(names: &[u64]) -> TypeReference {
    TypeReference::SelfQualified {
        qualifier: None,
        path: TypePath {
            self_rooted: false,
            segments: names.iter().map(|n| seg(*n)).collect(),
        },
    }
}

fn self_path(names: &[u64]) -> TypeReference {
    TypeReference::SelfQualified {
        qualifier: None,
        path: TypePath {
            self_rooted: true,
            segments: names.iter().map(|n| seg(*n)).collect(),
        },
    }
}

fn assoc_member(name: u64, target: TypeReference, span: Span) -> ImplMember {
    ImplMember::AssocTypeMember { name, target: AliasTarget::PathTarget { reference: target }, span }
}

fn method(body: MethodBody) -> ImplMember {
    ImplMember::MethodMember { body }
}

/// A method like `fn do_something(&self, associated: &Self::Associated)`
/// whose body matches `associated` against the given arm patterns.
fn match_method(subject_annotation: Option<TypeReference>, arms: Vec<Arm>) -> MethodBody {
    MethodBody {
        params: vec![Param { annotation: None, pattern: Pattern::BindingPat }],
        root: Expr::MatchExpr { subject: Box::new(Expr::LeafExpr), subject_annotation, arms },
    }
}

fn arm(pattern: Pattern) -> Arm {
    Arm { pattern, body: Expr::LeafExpr }
}

#[test]
fn scenario_state_arms_three_findings() {
    // `type Associated = State;` and a match over an `Associated`-typed value
    // against `State::A`, `State::B`, `State::C`: one finding per arm, each
    // at its arm's span.
    let block = ImplBlock {
        members: vec![
            assoc_member(ASSOCIATED, plain_path(&[STATE]), sp(1)),
            method(match_method(
                Some(self_path(&[ASSOCIATED])),
                vec![
                    arm(Pattern::PathPat { reference: plain_path(&[STATE, VAR_A]), span: sp(10) }),
                    arm(Pattern::PathPat { reference: plain_path(&[STATE, VAR_B]), span: sp(11) }),
                    arm(Pattern::PathPat { reference: plain_path(&[STATE, VAR_C]), span: sp(12) }),
                    arm(Pattern::WildPat),
                ],
            )),
        ],
    };
    let findings = analyze_block(&block, ArgPolicy::Lenient);
    assert_eq!(findings.len(), 3);
    assert_eq!(findings[0].occurrence.span, sp(10));
    assert_eq!(findings[1].occurrence.span, sp(11));
    assert_eq!(findings[2].occurrence.span, sp(12));
    for f in &findings {
        assert_eq!(f.binding.name, ASSOCIATED);
        assert_eq!(f.binding.span, sp(1));
    }
}

#[test]
fn scenario_concrete_param_arms_allowed() {
    // A sibling value declared with the concrete type `State` directly and
    // matched the same way contributes no findings: its declared type never
    // routes through the associated name. The value declared through
    // `Self::Associated` still yields its three.
    let concrete_match = Expr::MatchExpr {
        subject: Box::new(Expr::LeafExpr),
        subject_annotation: Some(plain_path(&[STATE])),
        arms: vec![
            arm(Pattern::PathPat { reference: plain_path(&[STATE, VAR_A]), span: sp(20) }),
            arm(Pattern::PathPat { reference: plain_path(&[STATE, VAR_B]), span: sp(21) }),
            arm(Pattern::PathPat { reference: plain_path(&[STATE, VAR_C]), span: sp(22) }),
            arm(Pattern::WildPat),
        ],
    };
    let source_match = Expr::MatchExpr {
        subject: Box::new(Expr::LeafExpr),
        subject_annotation: Some(self_path(&[ASSOCIATED])),
        arms: vec![
            arm(Pattern::PathPat { reference: plain_path(&[STATE, VAR_A]), span: sp(30) }),
            arm(Pattern::PathPat { reference: plain_path(&[STATE, VAR_B]), span: sp(31) }),
            arm(Pattern::PathPat { reference: plain_path(&[STATE, VAR_C]), span: sp(32) }),
            arm(Pattern::WildPat),
        ],
    };
    let body = MethodBody {
        params: vec![
            Param { annotation: None, pattern: Pattern::BindingPat },
            Param { annotation: None, pattern: Pattern::BindingPat },
        ],
        root: Expr::CompoundExpr { children: vec![concrete_match, source_match] },
    };
    let block = ImplBlock {
        members: vec![assoc_member(ASSOCIATED, plain_path(&[STATE]), sp(1)), method(body)],
    };
    let findings = analyze_block(&block, ArgPolicy::Lenient);
    assert_eq!(findings.len(), 3);
    assert_eq!(findings[0].occurrence.span, sp(30));
    assert_eq!(findings[1].occurrence.span, sp(31));
    assert_eq!(findings[2].occurrence.span, sp(32));
}

#[test]
fn scenario_destructured_parameter_one_finding() {
    // `type Associated = Value;` and a parameter written
    // `Value::Value(x): &Self::Associated`: exactly one finding, at the
    // pattern's span.
    let body = MethodBody {
        params: vec![Param {
            annotation: Some(self_path(&[ASSOCIATED])),
            pattern: Pattern::DestructPat {
                reference: plain_path(&[VALUE, VALUE]),
                span: sp(40),
                fields: vec![Pattern::BindingPat],
            },
        }],
        root: Expr::LeafExpr,
    };
    let block = ImplBlock {
        members: vec![assoc_member(ASSOCIATED, plain_path(&[VALUE]), sp(2)), method(body)],
    };
    let findings = analyze_block(&block, ArgPolicy::Lenient);
    assert_eq!(findings.len(), 1);
    assert_eq!(findings[0].occurrence.span, sp(40));
    assert_eq!(findings[0].binding.name, ASSOCIATED);
}

#[test]
fn rewritten_body_yields_nothing() {
    // A body already rewritten to reference the type exclusively through
    // `Self::Associated` produces zero findings.
    let block = ImplBlock {
        members: vec![
            assoc_member(ASSOCIATED, plain_path(&[STATE]), sp(1)),
            method(match_method(
                Some(self_path(&[ASSOCIATED])),
                vec![
                    arm(Pattern::PathPat {
                        reference: self_path(&[ASSOCIATED, VAR_A]),
                        span: sp(50),
                    }),
                    arm(Pattern::PathPat {
                        reference: self_path(&[ASSOCIATED, VAR_B]),
                        span: sp(51),
                    }),
                    arm(Pattern::WildPat),
                ],
            )),
        ],
    };
    let findings = analyze_block(&block, ArgPolicy::Lenient);
    assert_eq!(findings.len(), 0);
}

#[test]
fn no_leakage_between_blocks() {
    // A binding in one block never produces findings for occurrences in
    // another block, even though the other block references the same type.
    let binding_block = ImplBlock {
        members: vec![assoc_member(ASSOCIATED, plain_path(&[STATE]), sp(1))],
    };
    let occurrence_block = ImplBlock {
        members: vec![method(match_method(
            Some(self_path(&[ASSOCIATED])),
            vec![arm(Pattern::PathPat { reference: plain_path(&[STATE, VAR_A]), span: sp(60) })],
        ))],
    };
    let tree = vec![binding_block, occurrence_block];
    let findings = analyze_tree(&tree, ArgPolicy::Lenient);
    assert_eq!(findings.len(), 0);
}

#[test]
fn identical_occurrence_always_reported() {
    // An occurrence structurally identical to the binding's target (a bare
    // path expression naming `State`) is reported.
    let body = MethodBody {
        params: vec![],
        root: Expr::PathExpr { reference: plain_path(&[STATE]), span: sp(70) },
    };
    let block = ImplBlock {
        members: vec![assoc_member(ASSOCIATED, plain_path(&[STATE]), sp(1)), method(body)],
    };
    let findings = analyze_block(&block, ArgPolicy::Lenient);
    assert_eq!(findings.len(), 1);
    assert_eq!(findings[0].occurrence.span, sp(70));
}

#[test]
fn type_annotation_reported() {
    // An explicit type annotation written with the concrete type is an
    // occurrence in type position and is reported.
    let body = MethodBody {
        params: vec![],
        root: Expr::TypedExpr {
            annotation: plain_path(&[STATE]),
            span: sp(80),
            inner: Box::new(Expr::LeafExpr),
        },
    };
    let block = ImplBlock {
        members: vec![assoc_member(ASSOCIATED, plain_path(&[STATE]), sp(1)), method(body)],
    };
    let findings = analyze_block(&block, ArgPolicy::Lenient);
    assert_eq!(findings.len(), 1);
    assert_eq!(findings[0].occurrence.span, sp(80));
}

#[test]
fn two_runs_agree() {
    // Running the full pipeline twice over an unchanged tree produces the
    // same finding list, order included.
    let make_tree = || {
        vec![ImplBlock {
            members: vec![
                assoc_member(ASSOCIATED, plain_path(&[STATE]), sp(1)),
                method(match_method(
                    Some(self_path(&[ASSOCIATED])),
                    vec![
                        arm(Pattern::PathPat {
                            reference: plain_path(&[STATE, VAR_A]),
                            span: sp(90),
                        }),
                        arm(Pattern::PathPat {
                            reference: plain_path(&[STATE, VAR_B]),
                            span: sp(91),
                        }),
                    ],
                )),
            ],
        }]
    };
    let first = analyze_tree(&make_tree(), ArgPolicy::Lenient);
    let second = analyze_tree(&make_tree(), ArgPolicy::Lenient);
    assert_eq!(first.len(), second.len());
    for (a, b) in first.iter().zip(second.iter()) {
        assert_eq!(a.occurrence.span, b.occurrence.span);
        assert_eq!(a.binding.name, b.binding.name);
        assert_eq!(a.binding.span, b.binding.span);
        assert_eq!(a.message(), b.message());
    }
}

#[test]
fn first_definition_wins_on_duplicate_names() {
    // Two associated-type members under one name: the first definition wins,
    // so only occurrences of the first target are reported.
    let body = MethodBody {
        params: vec![],
        root: Expr::CompoundExpr {
            children: vec![
                Expr::PathExpr { reference: plain_path(&[STATE]), span: sp(100) },
                Expr::PathExpr { reference: plain_path(&[VALUE]), span: sp(101) },
            ],
        },
    };
    let block = ImplBlock {
        members: vec![
            assoc_member(ASSOCIATED, plain_path(&[STATE]), sp(1)),
            assoc_member(ASSOCIATED, plain_path(&[VALUE]), sp(2)),
            method(body),
        ],
    };
    let findings = analyze_block(&block, ArgPolicy::Lenient);
    assert_eq!(findings.len(), 1);
    assert_eq!(findings[0].occurrence.span, sp(100));
    assert_eq!(findings[0].binding.span, sp(1));
}

#[test]
fn unsupported_targets_contribute_no_binding() {
    // Generic-parameter, placeholder, special-form and `Self`-routed
    // right-hand sides are silently skipped during collection.
    let block = ImplBlock {
        members: vec![
            ImplMember::AssocTypeMember {
                name: ASSOCIATED,
                target: AliasTarget::ParamTarget,
                span: sp(1),
            },
            ImplMember::AssocTypeMember {
                name: OTHER,
                target: AliasTarget::OpaqueTarget,
                span: sp(2),
            },
            ImplMember::AssocTypeMember {
                name: PARAM_T,
                target: AliasTarget::PathTarget {
                    reference: TypeReference::SpecialForm { tag: 9 },
                },
                span: sp(3),
            },
            ImplMember::AssocTypeMember {
                name: VALUE,
                target: AliasTarget::PathTarget { reference: self_path(&[OTHER]) },
                span: sp(4),
            },
        ],
    };
    let bindings = scan(&block);
    assert_eq!(bindings.len(), 0);
}

#[test]
fn elided_arguments_lenient_vs_strict() {
    // The binding spells `State<T>` out; the occurrence elides the argument
    // and only its arity is known. The lenient policy compares by arity and
    // reports; the strict policy does not.
    let target = TypeReference::SelfQualified {
        qualifier: None,
        path: TypePath {
            self_rooted: false,
            segments: vec![Segment {
                name: STATE,
                args: ArgList::Explicit {
                    args: vec![TypePath { self_rooted: false, segments: vec![seg(PARAM_T)] }],
                },
            }],
        },
    };
    let occurrence_ref = TypeReference::SelfQualified {
        qualifier: None,
        path: TypePath {
            self_rooted: false,
            segments: vec![Segment { name: STATE, args: ArgList::Elided { arity: 1 } }],
        },
    };
    let make_block = |target: TypeReference, reference: TypeReference| ImplBlock {
        members: vec![
            assoc_member(ASSOCIATED, target, sp(1)),
            method(MethodBody {
                params: vec![],
                root: Expr::PathExpr { reference, span: sp(110) },
            }),
        ],
    };
    let lenient = analyze_block(
        &make_block(target_clone(&target), occ_clone(&occurrence_ref)),
        ArgPolicy::Lenient,
    );
    assert_eq!(lenient.len(), 1);
    let strict = analyze_block(&make_block(target, occurrence_ref), ArgPolicy::Strict);
    assert_eq!(strict.len(), 0);
}

fn target_clone(r: &TypeReference) -> TypeReference {
    r.deep_clone()
}

fn occ_clone(r: &TypeReference) -> TypeReference {
    r.deep_clone()
}

#[test]
fn qualifier_must_agree() {
    // The binding's target carries no owner-type qualifier; an occurrence
    // reaching the same name through an explicit qualifier does not match.
    let qualified = TypeReference::SelfQualified {
        qualifier: Some(TypePath { self_rooted: false, segments: vec![seg(OTHER)] }),
        path: TypePath { self_rooted: false, segments: vec![seg(STATE)] },
    };
    let block = ImplBlock {
        members: vec![
            assoc_member(ASSOCIATED, plain_path(&[STATE]), sp(1)),
            method(MethodBody {
                params: vec![],
                root: Expr::PathExpr { reference: qualified, span: sp(120) },
            }),
        ],
    };
    let findings = analyze_block(&block, ArgPolicy::Lenient);
    assert_eq!(findings.len(), 0);
}

#[test]
fn shape_must_agree() {
    // A type-relative occurrence never matches a plain-path binding, even
    // when the member names line up.
    let relative = TypeReference::TypeRelative {
        base: Box::new(plain_path(&[OTHER])),
        member: seg(STATE),
    };
    let block = ImplBlock {
        members: vec![
            assoc_member(ASSOCIATED, plain_path(&[STATE]), sp(1)),
            method(MethodBody {
                params: vec![],
                root: Expr::PathExpr { reference: relative, span: sp(130) },
            }),
        ],
    };
    let findings = analyze_block(&block, ArgPolicy::Lenient);
    assert_eq!(findings.len(), 0);
}

#[test]
fn context_must_route_through_the_matched_name() {
    // The subject is declared through `Self::Other`, a different associated
    // name than the one bound to `State`: its arms are not reported.
    let block = ImplBlock {
        members: vec![
            assoc_member(ASSOCIATED, plain_path(&[STATE]), sp(1)),
            method(match_method(
                Some(self_path(&[OTHER])),
                vec![arm(Pattern::PathPat { reference: plain_path(&[STATE, VAR_A]), span: sp(170) })],
            )),
        ],
    };
    let findings = analyze_block(&block, ArgPolicy::Lenient);
    assert_eq!(findings.len(), 0);
}

#[test]
fn type_relative_target_matches_extended_occurrence() {
    // The binding fixes the associated type to the type-relative path
    // `Other::State`; an occurrence naming a member of it, written
    // `Other::State::A`, is reported.
    let target = TypeReference::TypeRelative {
        base: Box::new(plain_path(&[OTHER])),
        member: seg(STATE),
    };
    let occurrence_ref = TypeReference::TypeRelative {
        base: Box::new(TypeReference::TypeRelative {
            base: Box::new(plain_path(&[OTHER])),
            member: seg(STATE),
        }),
        member: seg(VAR_A),
    };
    let block = ImplBlock {
        members: vec![
            assoc_member(ASSOCIATED, target, sp(1)),
            method(MethodBody {
                params: vec![],
                root: Expr::PathExpr { reference: occurrence_ref, span: sp(180) },
            }),
        ],
    };
    let findings = analyze_block(&block, ArgPolicy::Lenient);
    assert_eq!(findings.len(), 1);
    assert_eq!(findings[0].occurrence.span, sp(180));
}

#[test]
fn empty_inputs_yield_nothing() {
    let empty_tree: Vec<ImplBlock> = vec![];
    assert_eq!(analyze_tree(&empty_tree, ArgPolicy::Lenient).len(), 0);
    let empty_block = ImplBlock { members: vec![] };
    assert_eq!(analyze_block(&empty_block, ArgPolicy::Lenient).len(), 0);
    assert_eq!(scan(&empty_block).len(), 0);
}

#[test]
fn findings_carry_the_fixed_advisory() {
    let block = ImplBlock {
        members: vec![
            assoc_member(ASSOCIATED, plain_path(&[STATE]), sp(1)),
            method(MethodBody {
                params: vec![],
                root: Expr::PathExpr { reference: plain_path(&[STATE]), span: sp(140) },
            }),
        ],
    };
    let findings = analyze_block(&block, ArgPolicy::Lenient);
    assert_eq!(findings.len(), 1);
    assert_eq!(
        findings[0].message(),
        "used concrete type where the associated type could be used instead"
    );
}

#[test]
fn blocks_contribute_in_tree_order() {
    let make_block = |span: Span| ImplBlock {
        members: vec![
            assoc_member(ASSOCIATED, plain_path(&[STATE]), sp(1)),
            method(MethodBody {
                params: vec![],
                root: Expr::PathExpr { reference: plain_path(&[STATE]), span },
            }),
        ],
    };
    let tree = vec![make_block(sp(150)), make_block(sp(151))];
    let findings = analyze_tree(&tree, ArgPolicy::Lenient);
    assert_eq!(findings.len(), 2);
    assert_eq!(findings[0].occurrence.span, sp(150));
    assert_eq!(findings[1].occurrence.span, sp(151));
}

#[test]
fn nested_destructuring_reports_inner_paths() {
    // A nested destructuring pattern: the outer path and the nested arm path
    // are both occurrences under the same subject context.
    let body = MethodBody {
        params: vec![Param {
            annotation: Some(self_path(&[ASSOCIATED])),
            pattern: Pattern::DestructPat {
                reference: plain_path(&[VALUE, VALUE]),
                span: sp(160),
                fields: vec![Pattern::PathPat {
                    reference: plain_path(&[VALUE, VALUE]),
                    span: sp(161),
                }],
            },
        }],
        root: Expr::LeafExpr,
    };
    let block = ImplBlock {
        members: vec![assoc_member(ASSOCIATED, plain_path(&[VALUE]), sp(2)), method(body)],
    };
    let findings = analyze_block(&block, ArgPolicy::Lenient);
    assert_eq!(findings.len(), 2);
    assert_eq!(findings[0].occurrence.span, sp(160));
    assert_eq!(findings[1].occurrence.span, sp(161));
}
