use quicktrans::database::{period_seconds, ErrorDistribution, HistoryResult, TranslationRecord};

#[test]
fn period_lengths_are_fixed() {
    assert_eq!(period_seconds("hour"), 3600);
    assert_eq!(period_seconds("day"), 86400);
    assert_eq!(period_seconds("week"), 604800);
    assert_eq!(period_seconds("month"), 86400);
}

#[test]
fn history_records_hold_their_fields() {
    let record = TranslationRecord {
        id: 1,
        original_text: "你好".to_string(),
        translated_text: "Hello".to_string(),
        source_lang: None,
        target_lang: "en-US".to_string(),
        mode: "selected".to_string(),
        timestamp: 1700000000,
    };
    let result = HistoryResult { records: vec![record], total: 1 };
    assert_eq!(result.total, 1);
    assert_eq!(result.records[0].translated_text, "Hello");

    let dist = ErrorDistribution { error_type: "network".to_string(), count: 2 };
    assert_eq!(dist.count, 2);
}
