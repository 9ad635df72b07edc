use eqwalizer::diagnostics::deserialize_text_range;
use eqwalizer::diagnostics::extend_map;
use eqwalizer::diagnostics::from_pairs;
use eqwalizer::diagnostics::insert_pairs;
use eqwalizer::diagnostics::module_diagnostics;
use eqwalizer::diagnostics::DiagnosticsMap;
use eqwalizer::diagnostics::InvertedRange;
use eqwalizer::EqwalizerDiagnostic;
use eqwalizer::EqwalizerDiagnostics;
use eqwalizer::TextRange;
use fxhash::FxHashMap;

fn diagnostic(start: u32, end: u32, message: &str) -> EqwalizerDiagnostic {
    EqwalizerDiagnostic {
        range: TextRange::new(start, end),
        message: message.to_string(),
        uri: "https://fb.me/eqwalizer_errors#incompatible_types".to_string(),
        code: "incompatible_types".to_string(),
        expression: Some("X".to_string()),
        explanation: None,
    }
}

fn findings(entries: &[(&str, Vec<EqwalizerDiagnostic>)]) -> EqwalizerDiagnostics {
    let mut map: DiagnosticsMap = FxHashMap::default();
    for (module, list) in entries {
        map.insert(module.to_string(), list.clone());
    }
    EqwalizerDiagnostics::Diagnostics(map)
}

fn error(message: &str) -> EqwalizerDiagnostics {
    EqwalizerDiagnostics::Error(message.to_string())
}

fn no_ast(module: &str) -> EqwalizerDiagnostics {
    EqwalizerDiagnostics::NoAst { module: module.to_string() }
}

fn samples() -> Vec<EqwalizerDiagnostics> {
    vec![
        findings(&[]),
        findings(&[("a", vec![diagnostic(0, 1, "one")])]),
        findings(&[("a", vec![diagnostic(2, 3, "two")]), ("b", vec![])]),
        findings(&[("b", vec![diagnostic(4, 9, "three"), diagnostic(9, 9, "four")])]),
        error("boom"),
        error(""),
        no_ast("bad"),
        no_ast("worse"),
    ]
}

#[test]
fn default_holds_no_finding() {
    assert_eq!(EqwalizerDiagnostics::default(), findings(&[]));
}

#[test]
fn combine_error_absorbs() {
    for other in samples() {
        assert_eq!(error("boom").combine(&other), error("boom"));
    }
}

#[test]
fn combine_no_ast_absorbs() {
    for other in samples() {
        assert_eq!(no_ast("m").combine(&other), no_ast("m"));
    }
}

#[test]
fn combine_with_empty_is_identity() {
    for other in samples() {
        assert_eq!(EqwalizerDiagnostics::default().combine(&other), other);
        assert_eq!(other.clone().combine(&EqwalizerDiagnostics::default()), other);
    }
}

#[test]
fn combine_is_associative() {
    for a in samples() {
        for b in samples() {
            for c in samples() {
                let left = a.clone().combine(&b).combine(&c);
                let right = a.clone().combine(&b.clone().combine(&c));
                assert_eq!(left, right);
            }
        }
    }
}

#[test]
fn combine_unions_and_later_wins() {
    let first = diagnostic(0, 1, "first");
    let second = diagnostic(2, 3, "second");
    let third = diagnostic(4, 5, "third");
    let left = findings(&[("a", vec![first.clone()]), ("b", vec![second.clone()])]);
    let right = findings(&[("b", vec![third.clone()]), ("c", vec![])]);
    let merged = left.clone().combine(&right);
    assert_eq!(
        merged,
        findings(&[("a", vec![first.clone()]), ("b", vec![third.clone()]), ("c", vec![])])
    );
    // Replaced, not appended; and not commutative where both hold a module.
    let swapped = right.combine(&left);
    assert_eq!(
        swapped,
        findings(&[("a", vec![first]), ("b", vec![second]), ("c", vec![])])
    );
    assert_ne!(merged, swapped);
}

#[test]
fn combine_takes_the_first_failure_on_the_right() {
    let left = findings(&[("a", vec![diagnostic(0, 1, "one")])]);
    assert_eq!(left.clone().combine(&error("boom")), error("boom"));
    assert_eq!(left.combine(&no_ast("bad")), no_ast("bad"));
}

#[test]
fn combine_with_absorbing_element() {
    let d = diagnostic(1, 2, "d");
    let accumulator = EqwalizerDiagnostics::default();
    let accumulator = accumulator.combine(&findings(&[("x", vec![d.clone()])]));
    assert_eq!(accumulator, findings(&[("x", vec![d])]));
    let accumulator = accumulator.combine(&error("boom"));
    assert_eq!(accumulator, error("boom"));
    let accumulator = accumulator.combine(&findings(&[("y", vec![])]));
    assert_eq!(accumulator, error("boom"));
}

#[test]
fn error_wraps_the_message() {
    assert_eq!(EqwalizerDiagnostics::error("broken pipe".to_string()), error("broken pipe"));
}

#[test]
fn extend_map_copies_every_entry() {
    let mut dst: DiagnosticsMap = FxHashMap::default();
    dst.insert("a".to_string(), vec![diagnostic(0, 1, "old a")]);
    dst.insert("b".to_string(), vec![diagnostic(0, 1, "old b")]);
    let mut src: DiagnosticsMap = FxHashMap::default();
    src.insert("b".to_string(), vec![diagnostic(5, 6, "new b")]);
    src.insert("c".to_string(), vec![diagnostic(7, 8, "new c")]);
    let kept = src.clone();
    extend_map(&mut dst, &src);
    assert_eq!(src, kept);
    assert_eq!(dst.len(), 3);
    assert_eq!(dst["a"], vec![diagnostic(0, 1, "old a")]);
    assert_eq!(dst["b"], vec![diagnostic(5, 6, "new b")]);
    assert_eq!(dst["c"], vec![diagnostic(7, 8, "new c")]);
}

#[test]
fn from_pairs_later_pair_wins() {
    let map = from_pairs(vec![
        ("m".to_string(), vec![diagnostic(0, 1, "first")]),
        ("n".to_string(), vec![]),
        ("m".to_string(), vec![diagnostic(2, 3, "second")]),
    ]);
    assert_eq!(map.len(), 2);
    assert_eq!(map["m"], vec![diagnostic(2, 3, "second")]);
    assert_eq!(map["n"], vec![]);
    assert!(from_pairs(vec![]).is_empty());
}

#[test]
fn insert_pairs_keeps_the_rest() {
    let mut map = from_pairs(vec![
        ("a".to_string(), vec![diagnostic(0, 1, "a")]),
        ("b".to_string(), vec![diagnostic(0, 1, "b")]),
    ]);
    insert_pairs(&mut map, vec![("b".to_string(), vec![]), ("c".to_string(), vec![])]);
    assert_eq!(map.len(), 3);
    assert_eq!(map["a"], vec![diagnostic(0, 1, "a")]);
    assert_eq!(map["b"], vec![]);
    assert_eq!(map["c"], vec![]);
}

#[test]
fn pairs_round_trip() {
    let mut map: DiagnosticsMap = FxHashMap::default();
    map.insert("a".to_string(), vec![diagnostic(0, 1, "a"), diagnostic(1, 1, "a2")]);
    map.insert("b".to_string(), vec![]);
    map.insert("c".to_string(), vec![diagnostic(3, 7, "c")]);
    let mut pairs: Vec<(String, Vec<EqwalizerDiagnostic>)> =
        map.iter().map(|(k, v)| (k.clone(), v.clone())).collect();
    assert_eq!(from_pairs(pairs.clone()), map);
    pairs.reverse();
    assert_eq!(from_pairs(pairs.clone()), map);
    for (_, list) in &pairs {
        for d in list {
            assert!(d.range.start() <= d.range.end());
        }
    }
}

#[test]
fn text_range_from_the_wire() {
    let range = deserialize_text_range(3, 8).unwrap();
    assert_eq!((range.start(), range.end()), (3, 8));
    let empty = deserialize_text_range(5, 5).unwrap();
    assert_eq!((empty.start(), empty.end()), (5, 5));
    let whole = deserialize_text_range(0, u32::MAX).unwrap();
    assert_eq!((whole.start(), whole.end()), (0, u32::MAX));
    assert_eq!(deserialize_text_range(8, 3), Err(InvertedRange { start: 8, end: 3 }));
    assert_eq!(deserialize_text_range(1, 0), Err(InvertedRange { start: 1, end: 0 }));
}

#[test]
fn module_diagnostics_pairs_the_outcome_with_a_moment() {
    let outcome = findings(&[("m", vec![diagnostic(0, 1, "one")])]);
    let (first, earlier) = module_diagnostics(outcome.clone());
    let (second, later) = module_diagnostics(outcome.clone());
    assert_eq!(*first, outcome);
    assert_eq!(*second, outcome);
    assert!(earlier <= later);
    let (failed, _) = module_diagnostics(error("boom"));
    assert_eq!(*failed, error("boom"));
}
