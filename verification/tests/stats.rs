use eqwalizer::protocol::AstError;
use eqwalizer::stats::compute_eqwalizer_stats;
use eqwalizer::stats::ExternalForm;
use eqwalizer::stats::Fixme;
use eqwalizer::EqwalizerStats;

fn metadata(marks: &[bool]) -> ExternalForm {
    ExternalForm::ElpMetadata { fixmes: marks.iter().map(|m| Fixme { is_ignore: *m }).collect() }
}

#[test]
fn stats_count_each_kind() {
    let forms = vec![
        ExternalForm::Other,
        metadata(&[true, false, false]),
        ExternalForm::EqwalizerNowarnFunction,
        ExternalForm::Other,
        metadata(&[true]),
        ExternalForm::EqwalizerNowarnFunction,
        ExternalForm::EqwalizerNowarnFunction,
        metadata(&[]),
    ];
    assert_eq!(
        compute_eqwalizer_stats(&Ok(forms)),
        Some(EqwalizerStats { ignores: 2, fixmes: 2, nowarn: 3 })
    );
}

#[test]
fn stats_none_when_nothing_is_suppressed() {
    assert_eq!(compute_eqwalizer_stats(&Ok(vec![])), None);
    assert_eq!(
        compute_eqwalizer_stats(&Ok(vec![ExternalForm::Other, metadata(&[]), ExternalForm::Other])),
        None
    );
}

#[test]
fn stats_some_when_any_count_is_positive() {
    assert_eq!(
        compute_eqwalizer_stats(&Ok(vec![metadata(&[true])])),
        Some(EqwalizerStats { ignores: 1, fixmes: 0, nowarn: 0 })
    );
    assert_eq!(
        compute_eqwalizer_stats(&Ok(vec![metadata(&[false])])),
        Some(EqwalizerStats { ignores: 0, fixmes: 1, nowarn: 0 })
    );
    assert_eq!(
        compute_eqwalizer_stats(&Ok(vec![ExternalForm::EqwalizerNowarnFunction])),
        Some(EqwalizerStats { ignores: 0, fixmes: 0, nowarn: 1 })
    );
}

#[test]
fn stats_none_when_the_tree_cannot_be_had() {
    assert_eq!(compute_eqwalizer_stats(&Err(AstError::ModuleNotFound)), None);
    assert_eq!(compute_eqwalizer_stats(&Err(AstError::ParseError)), None);
    assert_eq!(compute_eqwalizer_stats(&Err(AstError::Other("beam not found".to_string()))), None);
}
