use zaplink::update::{after_stage, Step, UpdateStage, Verdict};

fn failed(message: &str) -> Result<(), String> {
    Err(message.to_string())
}

fn run(outcomes: &[Result<(), String>]) -> (Vec<UpdateStage>, Vec<String>, Result<(), String>) {
    let mut stage = UpdateStage::first();
    let mut visited = Vec::new();
    let mut log = Vec::new();
    let mut at = 0;
    loop {
        visited.push(stage);
        let Step { log: line, next } = after_stage(stage, outcomes[at].clone());
        at += 1;
        log.extend(line);
        match next {
            Verdict::Continue(following) => stage = following,
            Verdict::Finish(result) => return (visited, log, result),
        }
    }
}

#[test]
fn update_begins_with_locating_the_settings() {
    assert_eq!(UpdateStage::first(), UpdateStage::Locate);
}

#[test]
fn update_without_failures_takes_every_stage_in_order() {
    let (visited, log, result) = run(&[Ok(()), Ok(()), Ok(()), Ok(())]);
    assert_eq!(
        visited,
        vec![UpdateStage::Locate, UpdateStage::Unregister, UpdateStage::Persist, UpdateStage::Register]
    );
    assert!(log.is_empty());
    assert_eq!(result, Ok(()));
}

#[test]
fn update_without_a_settings_place_ends_at_once() {
    let (visited, log, result) = run(&[failed("whatever")]);
    assert_eq!(visited, vec![UpdateStage::Locate]);
    assert!(log.is_empty());
    assert_eq!(result, Err("Failed to get config directory".to_string()));
}

#[test]
fn failure_to_unregister_is_logged_and_the_update_goes_on() {
    let (visited, log, result) = run(&[Ok(()), failed("busy"), Ok(()), Ok(())]);
    assert_eq!(visited.len(), 4);
    assert_eq!(log, vec!["Failed to unregister shortcuts: busy".to_string()]);
    assert_eq!(result, Ok(()));
}

#[test]
fn failure_to_write_ends_the_update_with_that_failure() {
    let (visited, log, result) = run(&[Ok(()), Ok(()), failed("disk full")]);
    assert_eq!(visited, vec![UpdateStage::Locate, UpdateStage::Unregister, UpdateStage::Persist]);
    assert!(log.is_empty());
    assert_eq!(result, Err("disk full".to_string()));
}

#[test]
fn failure_to_register_is_logged_and_otherwise_ignored() {
    let (visited, log, result) = run(&[Ok(()), Ok(()), Ok(()), failed("taken")]);
    assert_eq!(visited.len(), 4);
    assert_eq!(log, vec!["Failed to register shortcut: taken".to_string()]);
    assert_eq!(result, Ok(()));
}

#[test]
fn both_shortcut_failures_are_logged() {
    let (_, log, result) = run(&[Ok(()), failed("a"), Ok(()), failed("b")]);
    assert_eq!(
        log,
        vec!["Failed to unregister shortcuts: a".to_string(), "Failed to register shortcut: b".to_string()]
    );
    assert_eq!(result, Ok(()));
}

#[test]
fn each_stage_names_the_next() {
    assert!(matches!(
        after_stage(UpdateStage::Locate, Ok(())),
        Step { log: None, next: Verdict::Continue(UpdateStage::Unregister) }
    ));
    assert!(matches!(
        after_stage(UpdateStage::Unregister, Ok(())),
        Step { log: None, next: Verdict::Continue(UpdateStage::Persist) }
    ));
    assert!(matches!(
        after_stage(UpdateStage::Persist, Ok(())),
        Step { log: None, next: Verdict::Continue(UpdateStage::Register) }
    ));
    assert!(matches!(
        after_stage(UpdateStage::Register, Ok(())),
        Step { log: None, next: Verdict::Finish(Ok(())) }
    ));
}
