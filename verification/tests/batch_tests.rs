use batch_ingest::handler::MessageHandler;
use batch_ingest::message::{FailureReason, Message, Outcome};
use batch_ingest::process::{classify_batch, process_batch, run_invocation, Config, StartupError};
use batch_ingest::scripted::ScriptedHandler;
use batch_ingest::store::TableStore;
use batch_ingest::upsert::UpsertHandler;

fn msg(id: &str, body: &str) -> Message {
    Message { id: Some(id.to_string()), body: body.to_string() }
}

fn order_handler() -> UpsertHandler {
    UpsertHandler::new(TableStore::new("orders".to_string()))
}

#[test]
fn clean_batch_empty_report() {
    let batch = vec![
        msg("1", "{\"sku\":\"a\",\"qty\":\"2\"}"),
        msg("2", "{\"sku\":\"b\",\"qty\":\"1\"}"),
        msg("3", "{}"),
    ];
    let mut h = order_handler();
    let report = process_batch(&batch, &mut h);
    assert!(report.failed_ids.is_empty());
    assert_eq!(h.store.rows.len(), 3);
}

#[test]
fn report_ids_are_subset_of_batch_ids() {
    let batch = vec![
        msg("a", "not json"),
        msg("b", "{\"k\":\"v\"}"),
        msg("c", "{broken"),
    ];
    let mut h = order_handler();
    let report = process_batch(&batch, &mut h);
    let batch_ids = ["a", "b", "c"];
    for id in &report.failed_ids {
        assert!(batch_ids.contains(&id.as_str()));
    }
    assert_eq!(report.failed_ids, vec!["a".to_string(), "c".to_string()]);
}

#[test]
fn every_message_classified_exactly_once() {
    let batch = vec![msg("1", "x"), msg("2", "x"), msg("3", "x"), msg("4", "x")];
    let mut h = ScriptedHandler::new(vec![false, true, false, true]);
    let outs = classify_batch(&batch, &mut h);
    assert_eq!(outs.len(), batch.len());
    let successes = outs.iter().filter(|o| matches!(o, Outcome::Success)).count();
    let failures = outs.iter().filter(|o| matches!(o, Outcome::Failure(_))).count();
    assert_eq!(successes + failures, batch.len());
    assert_eq!(successes, 2);
    assert_eq!(failures, 2);
}

#[test]
fn single_failure_is_isolated() {
    let batch = vec![msg("1", "x"), msg("2", "x"), msg("3", "x")];
    let mut h = ScriptedHandler::new(vec![true, false, true]);
    let report = process_batch(&batch, &mut h);
    assert_eq!(report.failed_ids, vec!["2".to_string()]);
    // Every scripted result was consumed: all three messages were attempted.
    assert_eq!(h.remaining_len(), 0);
}

#[test]
fn redelivered_message_leaves_same_state() {
    let m = msg("order-7", "{\"sku\":\"a\",\"qty\":\"2\"}");
    let mut h = order_handler();
    assert!(h.handle(&m).is_ok());
    let rows_once = h.store.rows.clone();
    assert!(h.handle(&m).is_ok());
    assert_eq!(h.store.rows.len(), 1);
    assert_eq!(h.store.rows, rows_once);
}

#[test]
fn mixed_batch_reports_only_the_malformed_message() {
    let batch = vec![
        msg("1", "{\"sku\":\"a\",\"qty\":\"2\"}"),
        msg("2", "not json"),
        msg("3", "{\"sku\":\"b\",\"qty\":\"1\"}"),
    ];
    let mut h = order_handler();
    let report = process_batch(&batch, &mut h);
    assert_eq!(report.failed_ids, vec!["2".to_string()]);
    // The downstream store received exactly the two good records.
    assert_eq!(h.store.rows.len(), 2);
    let keys: Vec<&str> = h.store.rows.iter().map(|r| r.0.as_str()).collect();
    assert!(keys.contains(&"1"));
    assert!(keys.contains(&"3"));
}

#[test]
fn empty_batch_gives_empty_report_and_no_writes() {
    let batch: Vec<Message> = Vec::new();
    let mut h = order_handler();
    let report = process_batch(&batch, &mut h);
    assert!(report.failed_ids.is_empty());
    assert_eq!(h.store.rows.len(), 0);
}

#[test]
fn message_without_identifier_fails_without_handler_attempt() {
    let batch = vec![
        Message { id: None, body: "{\"k\":\"v\"}".to_string() },
        Message { id: Some(String::new()), body: "{\"k\":\"v\"}".to_string() },
        msg("3", "{\"k\":\"v\"}"),
    ];
    let mut h = ScriptedHandler::new(vec![true, true, true]);
    let outs = classify_batch(&batch, &mut h);
    assert!(matches!(outs[0], Outcome::Failure(None)));
    assert!(matches!(outs[1], Outcome::Failure(None)));
    assert!(matches!(outs[2], Outcome::Success));
    // Only the message with an identifier reached the handler.
    assert_eq!(h.remaining_len(), 2);
    // An unreportable failure cannot be named in the report.
    let mut h2 = ScriptedHandler::new(vec![true]);
    let report = process_batch(&batch, &mut h2);
    assert!(report.failed_ids.is_empty());
}

#[test]
fn handlers_name_why_an_attempt_failed() {
    let mut h = order_handler();
    let r = h.handle(&msg("1", "not json"));
    assert!(matches!(r, Err(FailureReason::Parse)));

    let mut s = ScriptedHandler::new(vec![false]);
    let r2 = s.handle(&msg("1", "{}"));
    assert!(matches!(r2, Err(FailureReason::Downstream)));
}

#[test]
fn missing_configuration_fails_before_any_attempt() {
    let batch = vec![msg("1", "{\"k\":\"v\"}")];
    let mut h = order_handler();
    let r = run_invocation(None, &batch, &mut h);
    assert!(matches!(r, Err(StartupError::MissingTableName)));
    assert_eq!(h.store.rows.len(), 0);

    let mut h2 = ScriptedHandler::new(vec![true]);
    let r2 = run_invocation(Some(String::new()), &batch, &mut h2);
    assert!(matches!(r2, Err(StartupError::MissingTableName)));
    // No scripted result was consumed: no handler attempt was made.
    assert_eq!(h2.remaining_len(), 1);
}

#[test]
fn present_configuration_processes_the_batch() {
    let batch = vec![msg("1", "{\"k\":\"v\"}"), msg("2", "oops")];
    let mut h = order_handler();
    let r = run_invocation(Some("orders".to_string()), &batch, &mut h);
    let report = r.expect("configuration is present");
    assert_eq!(report.failed_ids, vec!["2".to_string()]);
    assert_eq!(h.store.rows.len(), 1);
}

#[test]
fn config_accepts_exactly_a_non_empty_name() {
    let ok = Config::from_table_name(Some("orders".to_string()));
    assert_eq!(ok.expect("present").table_name, "orders");
    assert!(matches!(
        Config::from_table_name(Some(String::new())),
        Err(StartupError::MissingTableName)
    ));
    assert!(matches!(Config::from_table_name(None), Err(StartupError::MissingTableName)));
}
