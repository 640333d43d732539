use pg_app_role_manager::report::ActionOutcome;
use pg_app_role_manager::report::ActionReport;

#[test]
fn outcome_labels() {
    assert_eq!(ActionOutcome::Created.label(), "Created");
    assert_eq!(ActionOutcome::Skipped.label(), "Skipped");
    assert_eq!(ActionOutcome::Updated.label(), "Updated");
    assert_eq!(ActionOutcome::Removed.label(), "Removed");
    assert_eq!(ActionOutcome::NotFound.label(), "Not Found");
    assert_eq!(ActionOutcome::NotFound.to_display_string(), "Not Found");
}

#[test]
fn new_report_is_empty() {
    let report = ActionReport::new("Init");
    assert_eq!(report.len(), 0);
    assert_eq!(report.count(ActionOutcome::Created), 0);
}

#[test]
fn record_appends_and_announces() {
    let mut report = ActionReport::new("Init");
    let line = report.record("Database 'appdb'", ActionOutcome::Created);
    assert_eq!(line, "Created: Database 'appdb'");
    let line = report.record("Schema 'billing'", ActionOutcome::NotFound);
    assert_eq!(line, "Not Found: Schema 'billing'");
    assert_eq!(report.len(), 2);
    assert_eq!(report.outcome_at(0), ActionOutcome::Created);
    assert_eq!(report.description_at(0), "Database 'appdb'");
    assert_eq!(report.outcome_at(1), ActionOutcome::NotFound);
    assert_eq!(report.description_at(1), "Schema 'billing'");
}

#[test]
fn count_tallies_each_outcome() {
    let mut report = ActionReport::new("X");
    report.record("a", ActionOutcome::Created);
    report.record("b", ActionOutcome::Updated);
    report.record("c", ActionOutcome::Created);
    report.record("d", ActionOutcome::Removed);
    report.record("e", ActionOutcome::Updated);
    report.record("f", ActionOutcome::Updated);
    assert_eq!(report.count(ActionOutcome::Created), 2);
    assert_eq!(report.count(ActionOutcome::Updated), 3);
    assert_eq!(report.count(ActionOutcome::Removed), 1);
    assert_eq!(report.count(ActionOutcome::Skipped), 0);
    assert_eq!(report.count(ActionOutcome::NotFound), 0);
}

#[test]
fn summary_of_empty_report() {
    let report = ActionReport::new("Remove Mapping");
    assert_eq!(
        report.summary_lines(),
        vec![
            "".to_string(),
            "=== Remove Mapping Summary ===".to_string(),
            "Total actions: 0".to_string(),
            "==================".to_string(),
        ]
    );
}

#[test]
fn summary_lists_only_outcomes_that_occurred() {
    let mut report = ActionReport::new("Init");
    report.record("a", ActionOutcome::Created);
    report.record("b", ActionOutcome::Updated);
    report.record("c", ActionOutcome::Updated);
    assert_eq!(
        report.summary_lines(),
        vec![
            "".to_string(),
            "=== Init Summary ===".to_string(),
            "Total actions: 3".to_string(),
            "  Created: 1".to_string(),
            "  Updated: 2".to_string(),
            "==================".to_string(),
        ]
    );
}

#[test]
fn summary_with_every_outcome_in_fixed_order() {
    let mut report = ActionReport::new("All");
    report.record("a", ActionOutcome::NotFound);
    report.record("b", ActionOutcome::Removed);
    report.record("c", ActionOutcome::Updated);
    report.record("d", ActionOutcome::Skipped);
    report.record("e", ActionOutcome::Created);
    for _ in 0..7 {
        report.record("f", ActionOutcome::Skipped);
    }
    assert_eq!(
        report.summary_lines(),
        vec![
            "".to_string(),
            "=== All Summary ===".to_string(),
            "Total actions: 12".to_string(),
            "  Created: 1".to_string(),
            "  Skipped: 8".to_string(),
            "  Updated: 1".to_string(),
            "  Removed: 1".to_string(),
            "  Not Found: 1".to_string(),
            "==================".to_string(),
        ]
    );
}
