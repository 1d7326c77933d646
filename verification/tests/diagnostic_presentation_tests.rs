use antennabench_desktop::diagnostics::{present_cause, present_fact_value, present_target, safe_support_cause};
use antennabench_desktop::operation_diagnostics::{DiagnosticCause, DiagnosticFact, DiagnosticFactValue, DiagnosticPhase, DiagnosticTarget};

fn fact(name: &str, value: DiagnosticFactValue) -> DiagnosticFact {
    DiagnosticFact { name: name.into(), value }
}

#[test]
fn fact_values_are_shown_as_plain_text() {
    assert_eq!(present_fact_value(&DiagnosticFactValue::Bool(true)), "true");
    assert_eq!(present_fact_value(&DiagnosticFactValue::I64(i64::MIN)), "-9223372036854775808");
    assert_eq!(present_fact_value(&DiagnosticFactValue::U64(301_337)), "301337");
    assert_eq!(present_fact_value(&DiagnosticFactValue::TimestampMs(1_784_462_400_000)), "2026-07-19T12:00:00Z");
    assert_eq!(present_fact_value(&DiagnosticFactValue::Enum("jsonl".into())), "jsonl");
}

#[test]
fn targets_name_their_kind_and_windows_their_bounds() {
    assert_eq!(present_target(&DiagnosticTarget::Mutation { id: "m-1".into() }), "mutation: m-1");
    assert_eq!(
        present_target(&DiagnosticTarget::AcquisitionWindow { start_ms: 0, end_ms: 120_000 }),
        "window: 1970-01-01T00:00:00Z to 1970-01-01T00:02:00Z"
    );
}

#[test]
fn causes_list_their_facts_and_support_summaries_drop_identifiers() {
    let cause = DiagnosticCause {
        code: "resource.jsonl_line_bytes".into(),
        phase: DiagnosticPhase::WriteDestination,
        facts: vec![
            fact("observed_bytes", DiagnosticFactValue::U64(301_337)),
            fact("source", DiagnosticFactValue::Identifier("station-7".into())),
            fact("limit_bytes", DiagnosticFactValue::U64(262_144)),
        ],
    };
    assert_eq!(
        present_cause(&cause),
        "resource.jsonl_line_bytes (write_destination) \u{b7} observed_bytes=301337, source=station-7, limit_bytes=262144"
    );
    let safe = safe_support_cause(&cause);
    assert_eq!(safe.phase, "write_destination");
    assert_eq!(safe.facts, vec!["observed_bytes=301337".to_string(), "limit_bytes=262144".to_string()]);
    let bare = DiagnosticCause { code: "session.busy".into(), phase: DiagnosticPhase::Admission, facts: Vec::new() };
    assert_eq!(present_cause(&bare), "session.busy (admission)");
}
