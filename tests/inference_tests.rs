use std::collections::HashMap;

use rhino::inference::ExtractionCall;
use rhino::{Extraction, ExtractionReply, ExtractionStep, PvStatus, RhinoErrorStatus, RhinoInference};

fn s(x: &str) -> String {
    x.to_string()
}

fn coffee_slots() -> Vec<(String, String)> {
    vec![
        (s("beverage"), s("americano")),
        (s("numberOfShots"), s("double shot")),
        (s("size"), s("medium")),
    ]
}

/// Drives a session to its end, answering each step from `reply`.
fn drive(mut reply: impl FnMut(ExtractionStep) -> ExtractionReply) -> (Vec<ExtractionStep>, Result<RhinoInference, rhino::RhinoError>) {
    let mut session = Extraction::new();
    let mut steps = Vec::new();
    loop {
        let step = session.next_step();
        steps.push(step);
        if step == ExtractionStep::Finished {
            break;
        }
        session.handle(reply(step));
    }
    (steps, session.finish().unwrap())
}

fn understood_engine(step: ExtractionStep) -> ExtractionReply {
    match step {
        ExtractionStep::QueryUnderstood => ExtractionReply::Understood(PvStatus::SUCCESS, true),
        ExtractionStep::GetIntent => ExtractionReply::Intent(PvStatus::SUCCESS, s("orderBeverage"), coffee_slots()),
        ExtractionStep::FreeSlots => ExtractionReply::SlotsFreed(PvStatus::SUCCESS),
        ExtractionStep::ResetEngine => ExtractionReply::EngineReset(PvStatus::SUCCESS),
        _ => panic!("unexpected step {step:?}"),
    }
}

fn expect_error(r: Result<RhinoInference, rhino::RhinoError>) -> rhino::RhinoError {
    match r {
        Err(e) => e,
        Ok(_) => panic!("expected an error"),
    }
}

fn slots_as_map(inference: &RhinoInference) -> HashMap<String, String> {
    inference.slots.entries().iter().cloned().collect()
}

#[test]
fn coffee_order_is_copied_out_with_every_slot() {
    let (steps, r) = drive(understood_engine);
    assert_eq!(
        steps,
        vec![
            ExtractionStep::QueryUnderstood,
            ExtractionStep::GetIntent,
            ExtractionStep::FreeSlots,
            ExtractionStep::ResetEngine,
            ExtractionStep::Finished,
        ]
    );
    let inference = r.unwrap();
    assert!(inference.is_understood);
    assert_eq!(inference.intent.as_deref(), Some("orderBeverage"));
    let expected: HashMap<String, String> = coffee_slots().into_iter().collect();
    assert_eq!(slots_as_map(&inference), expected);
    assert_eq!(inference.slots.len(), 3);
    assert_eq!(inference.slots.get("size").map(|v| v.as_str()), Some("medium"));
    assert_eq!(inference.slots.get("temperature"), None);
}

#[test]
fn out_of_context_utterance_is_not_understood_and_has_no_slots() {
    let (steps, r) = drive(|step| match step {
        ExtractionStep::QueryUnderstood => ExtractionReply::Understood(PvStatus::SUCCESS, false),
        ExtractionStep::ResetEngine => ExtractionReply::EngineReset(PvStatus::SUCCESS),
        _ => panic!("unexpected step {step:?}"),
    });
    assert_eq!(steps, vec![ExtractionStep::QueryUnderstood, ExtractionStep::ResetEngine, ExtractionStep::Finished]);
    let inference = r.unwrap();
    assert!(!inference.is_understood);
    assert_eq!(inference.intent, None);
    assert!(inference.slots.is_empty());
    assert_eq!(inference.slots.len(), 0);
}

#[test]
fn second_utterance_reads_out_like_the_first() {
    let (steps1, r1) = drive(understood_engine);
    let (steps2, r2) = drive(understood_engine);
    assert_eq!(steps1, steps2);
    let (a, b) = (r1.unwrap(), r2.unwrap());
    assert_eq!(a.is_understood, b.is_understood);
    assert_eq!(a.intent, b.intent);
    assert_eq!(slots_as_map(&a), slots_as_map(&b));
}

#[test]
fn repeated_slot_name_keeps_the_last_value() {
    let (_, r) = drive(|step| match step {
        ExtractionStep::GetIntent => ExtractionReply::Intent(
            PvStatus::SUCCESS,
            s("orderBeverage"),
            vec![(s("size"), s("small")), (s("size"), s("large"))],
        ),
        other => understood_engine(other),
    });
    let inference = r.unwrap();
    assert_eq!(inference.slots.len(), 1);
    assert_eq!(inference.slots.get("size").map(|v| v.as_str()), Some("large"));
}

#[test]
fn failed_intent_fetch_reports_the_native_messages_and_frees_nothing() {
    let (steps, r) = drive(|step| match step {
        ExtractionStep::GetIntent => ExtractionReply::Intent(PvStatus::INVALID_STATE, String::new(), Vec::new()),
        ExtractionStep::FetchErrorStack => ExtractionReply::ErrorStack(Ok(vec![s("no utterance"), s("state")])),
        other => understood_engine(other),
    });
    assert!(!steps.contains(&ExtractionStep::FreeSlots));
    assert!(!steps.contains(&ExtractionStep::ResetEngine));
    let e = expect_error(r);
    assert_eq!(e.status, RhinoErrorStatus::LibraryError(PvStatus::INVALID_STATE));
    assert_eq!(e.message, "'pv_rhino_get_intent' failed");
    assert_eq!(e.message_stack, vec![s("no utterance"), s("state")]);
}

#[test]
fn failed_free_is_reported_after_one_free() {
    let (steps, r) = drive(|step| match step {
        ExtractionStep::FreeSlots => ExtractionReply::SlotsFreed(PvStatus::RUNTIME_ERROR),
        ExtractionStep::FetchErrorStack => ExtractionReply::ErrorStack(Ok(Vec::new())),
        other => understood_engine(other),
    });
    assert_eq!(steps.iter().filter(|s| **s == ExtractionStep::FreeSlots).count(), 1);
    let e = expect_error(r);
    assert_eq!(e.status, RhinoErrorStatus::LibraryError(PvStatus::RUNTIME_ERROR));
    assert_eq!(e.message, "'pv_rhino_free_slots_and_values' failed");
}

#[test]
fn failure_to_fetch_messages_replaces_the_error() {
    let (_, r) = drive(|step| match step {
        ExtractionStep::QueryUnderstood => ExtractionReply::Understood(PvStatus::INVALID_ARGUMENT, false),
        ExtractionStep::FetchErrorStack => ExtractionReply::ErrorStack(Err(PvStatus::OUT_OF_MEMORY)),
        other => panic!("unexpected step {other:?}"),
    });
    let e = expect_error(r);
    assert_eq!(e.status, RhinoErrorStatus::LibraryError(PvStatus::OUT_OF_MEMORY));
    assert_eq!(e.message, "Unable to get Rhino error state");
    assert!(e.message_stack.is_empty());
}

#[test]
fn failed_reset_is_an_error() {
    let (_, r) = drive(|step| match step {
        ExtractionStep::ResetEngine => ExtractionReply::EngineReset(PvStatus::IO_ERROR),
        ExtractionStep::FetchErrorStack => ExtractionReply::ErrorStack(Ok(vec![s("reset")])),
        other => understood_engine(other),
    });
    let e = expect_error(r);
    assert_eq!(e.message, "'pv_rhino_reset' failed");
    assert_eq!(e.message_stack, vec![s("reset")]);
}

#[test]
fn reply_to_another_step_is_ignored() {
    let mut session = Extraction::new();
    session.handle(ExtractionReply::EngineReset(PvStatus::SUCCESS));
    assert_eq!(session.next_step(), ExtractionStep::QueryUnderstood);
    assert!(session.finish().is_none());
}

#[test]
fn call_names_match_the_native_functions() {
    assert_eq!(ExtractionCall::IsUnderstood.function_name(), "pv_rhino_is_understood");
    assert_eq!(ExtractionCall::GetIntent.function_name(), "pv_rhino_get_intent");
    assert_eq!(ExtractionCall::FreeSlotsAndValues.function_name(), "pv_rhino_free_slots_and_values");
    assert_eq!(ExtractionCall::Reset.function_name(), "pv_rhino_reset");
    assert_eq!(ExtractionCall::GetErrorStack.function_name(), "pv_get_error_stack");
}
