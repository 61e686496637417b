use pvlc_decoder_sessions::failure::{
    captured_failure_message, check_acquisition, check_admission, drain_appended_message,
    lease_failure, new_session_state, poisoned_state, ready_state, restored_state, SessionState,
    StoredFlags,
};
use pvlc_decoder_sessions::family::Family;
use pvlc_decoder_sessions::lifecycle::{Action, Event, Operation, Run, ScopeKind};

fn name(action: &Action) -> String {
    match action {
        Action::Push(scope) => format!("push {:?}", scope),
        Action::Resolve => "resolve".to_string(),
        Action::Encode => "encode".to_string(),
        Action::Store => "store".to_string(),
        Action::AwaitQueue => "await".to_string(),
        Action::MapReadback(index) => format!("map {}", index),
        Action::ReadGeneration => "generation".to_string(),
        Action::Read(index) => format!("read {}", index),
        Action::Unmap(index) => format!("unmap {}", index),
        Action::UnmapQuietly(index) => format!("unmap quietly {}", index),
        Action::Accept => "accept".to_string(),
        Action::WaitIdle => "wait".to_string(),
        Action::Pop(scope) => format!("pop {:?}", scope),
        Action::PoisonStored => "poison".to_string(),
        Action::MarkReady => "ready".to_string(),
        Action::Report => "report".to_string(),
        Action::Restore { poisoned, advanced } => format!("restore {} {}", poisoned, advanced),
        Action::Release => "release".to_string(),
        Action::Return(Ok(text)) => format!("return {}", text),
        Action::Return(Err(message)) => format!("fail {}", message),
    }
}

/// Runs an operation; `answer` says how the world answers an action, nothing for the usual way.
fn trace(
    family: Family,
    operation: Operation,
    answer: fn(&str, usize) -> Option<Event>,
) -> Vec<String> {
    let (mut run, mut action) = Run::start(family, operation, Ok(()));
    let mut names: Vec<String> = Vec::new();
    for _ in 0..64 {
        let text = name(&action);
        names.push(text.clone());
        if let Action::Return(_) = action {
            return names;
        }
        let event = match answer(&text, names.len()) {
            Some(event) => event,
            None => match action {
                Action::Report => Event::Reported("done".to_string()),
                _ => Event::Done,
            },
        };
        let (next, following) = run.advance(event);
        run = next;
        action = following;
    }
    panic!("the operation did not return");
}

#[test]
fn a_refused_operation_does_nothing() {
    let (run, action) = Run::start(Family::Kv, Operation::Step, Err("no".to_string()));
    assert_eq!(name(&action), "restore false false");
    let before = SessionState {
        flags: StoredFlags { poisoned: false, ready: true },
        cache_tokens: 7,
    };
    assert_eq!(restored_state(before, 8, false, false), before);
    let (_, action) = run.advance(Event::Done);
    assert_eq!(name(&action), "fail no");
    let (_, action) = Run::start(Family::Stack, Operation::Begin, Err("no".to_string()));
    assert_eq!(name(&action), "fail no");
}

#[test]
fn a_session_is_moved_on_and_poisoned() {
    let new = new_session_state(3);
    assert!(!new.flags.poisoned && !new.flags.ready);
    assert_eq!(new.cache_tokens, 3);
    assert!(check_acquisition(Family::Kv, Some(new.flags)).is_err());
    let ready = ready_state(new);
    assert!(check_acquisition(Family::Kv, Some(ready.flags)).is_ok());
    let moved = restored_state(ready, 4, false, true);
    assert_eq!((moved.cache_tokens, moved.flags), (4, ready.flags));
    let failed = restored_state(moved, 5, true, false);
    assert_eq!(failed, poisoned_state(moved));
    assert_eq!(restored_state(failed, 6, false, true).flags.poisoned, true);
}

#[test]
fn a_lease_is_settled_once() {
    for operation in [Operation::Step, Operation::Logits, Operation::Finish] {
        for broken in 0..30usize {
            let (mut run, mut action) = Run::start(Family::Stack, operation, Ok(()));
            let mut settled: Vec<String> = Vec::new();
            let mut count = 0usize;
            let ending = loop {
                count += 1;
                match action {
                    Action::Restore { .. } | Action::Release => settled.push(name(&action)),
                    Action::Return(ending) => break ending,
                    _ => {}
                }
                let event = if count == broken {
                    Event::Failed("broken".to_string())
                } else {
                    Event::Done
                };
                let (next, following) = run.advance(event);
                run = next;
                action = following;
            };
            assert_eq!(settled.len(), 1);
            if ending.is_ok() {
                let good = if operation == Operation::Finish { "release" } else { "restore false true" };
                assert_eq!(settled[0], good);
            }
        }
    }
}

#[test]
fn a_begin_drains_its_scopes_in_reverse() {
    assert_eq!(
        trace(Family::Stack, Operation::Begin, |_, _| None),
        vec![
            "push Internal",
            "push OutOfMemory",
            "push Validation",
            "resolve",
            "encode",
            "store",
            "generation",
            "pop Validation",
            "generation",
            "pop OutOfMemory",
            "generation",
            "pop Internal",
            "generation",
            "ready",
            "report",
            "return done",
        ]
    );
}

#[test]
fn a_step_reads_back_and_restores_its_session() {
    assert_eq!(
        trace(Family::Kv, Operation::Step, |_, _| None),
        vec![
            "push Internal",
            "push OutOfMemory",
            "push Validation",
            "resolve",
            "encode",
            "await",
            "map 0",
            "generation",
            "read 0",
            "unmap 0",
            "accept",
            "generation",
            "pop Validation",
            "generation",
            "pop OutOfMemory",
            "generation",
            "pop Internal",
            "report",
            "restore false true",
            "return done",
        ]
    );
}

#[test]
fn a_finish_maps_each_readback_and_releases() {
    let kv = trace(Family::Kv, Operation::Finish, |_, _| None);
    assert!(kv.contains(&"map 0".to_string()) && !kv.contains(&"map 1".to_string()));
    let layer = trace(Family::Layer, Operation::Finish, |_, _| None);
    assert!(layer.contains(&"map 1".to_string()) && layer.contains(&"unmap 1".to_string()));
    assert_eq!(layer[layer.len() - 2], "release");
}

#[test]
fn a_failed_push_drains_what_was_pushed() {
    let names = trace(Family::Kv, Operation::Begin, |action, _| {
        if action == "push OutOfMemory" {
            Some(Event::Failed("lost".to_string()))
        } else {
            None
        }
    });
    assert_eq!(
        names,
        vec![
            "push Internal",
            "push OutOfMemory",
            "pop OutOfMemory",
            "pop Internal",
            "fail lost",
        ]
    );
}

#[test]
fn a_failed_encode_poisons_the_session() {
    let names = trace(Family::Stack, Operation::Prefill, |action, _| match action {
        "encode" => Some(Event::Failed("broken".to_string())),
        "pop Validation" => Some(Event::Captured("bad buffer".to_string())),
        "pop Internal" => Some(Event::Failed("no scope".to_string())),
        _ => None,
    });
    assert_eq!(names[names.len() - 2], "restore true false");
    assert_eq!(
        names[names.len() - 1],
        "fail broken; captured WebGPU error: bad buffer; scope cleanup failure: no scope"
    );
}

#[test]
fn a_captured_error_poisons_the_session() {
    let names = trace(Family::Layer, Operation::Step, |action, _| {
        if action == "pop OutOfMemory" {
            Some(Event::Captured("oom".to_string()))
        } else {
            None
        }
    });
    assert_eq!(names[names.len() - 2], "restore true true");
    assert_eq!(
        names[names.len() - 1],
        "fail decoder layer session captured WebGPU errors: [oom]"
    );
    let begun = trace(Family::Layer, Operation::Begin, |action, _| {
        if action == "pop Internal" {
            Some(Event::Captured("late".to_string()))
        } else {
            None
        }
    });
    assert_eq!(begun[begun.len() - 2], "poison");
}

#[test]
fn a_cancelled_generation_waits_before_it_pops() {
    let names = trace(Family::Stack, Operation::Logits, |action, _| {
        if action == "generation" {
            Some(Event::Superseded)
        } else {
            None
        }
    });
    let at = |wanted: &str| names.iter().position(|name| name == wanted).unwrap();
    assert!(at("unmap quietly 0") < at("wait"));
    assert!(at("wait") < at("pop Validation"));
    assert_eq!(names.iter().filter(|name| *name == "wait").count(), 3);
    assert_eq!(names[names.len() - 2], "release");
    assert_eq!(
        names[names.len() - 1],
        "fail decoder stack session logits is stale: its generation was cancelled"
    );
}

#[test]
fn a_session_that_cannot_be_stored_is_refused() {
    let names = trace(Family::Kv, Operation::Begin, |action, _| {
        if action == "store" {
            Some(Event::Failed("taken".to_string()))
        } else {
            None
        }
    });
    assert_eq!(names[names.len() - 1], "fail decoder KV session is already active");
}

#[test]
fn a_failed_report_poisons_the_session() {
    let names = trace(Family::Stack, Operation::Top1, |action, _| {
        if action == "report" {
            Some(Event::Failed("unwritable".to_string()))
        } else {
            None
        }
    });
    assert_eq!(names[names.len() - 2], "restore true true");
    assert_eq!(names[names.len() - 1], "fail unwritable");
}

#[test]
fn every_scope_is_popped_whatever_fails() {
    for broken in 1..24usize {
        let (mut run, mut action) = Run::start(Family::Layer, Operation::Finish, Ok(()));
        let mut open: Vec<ScopeKind> = Vec::new();
        let mut count = 0usize;
        loop {
            count += 1;
            match &action {
                Action::Push(scope) => open.push(*scope),
                Action::Pop(scope) => assert_eq!(open.pop(), Some(*scope)),
                Action::Return(_) => break,
                _ => {}
            }
            let event = if count == broken {
                Event::Failed("broken".to_string())
            } else {
                Event::Done
            };
            let (next, following) = run.advance(event);
            run = next;
            action = following;
        }
        assert!(open.is_empty());
        assert!(count < 64);
    }
}

#[test]
fn admission_and_acquisition_follow_the_flags() {
    assert_eq!(check_admission(Family::Kv, false, false), Ok(()));
    assert_eq!(
        check_admission(Family::Kv, true, true),
        Err("decoder KV session is terminally poisoned".to_string())
    );
    assert_eq!(
        check_admission(Family::Stack, false, true),
        Err("decoder stack session is already active or busy with another operation".to_string())
    );
    let ready = StoredFlags { poisoned: false, ready: true };
    assert_eq!(check_acquisition(Family::Layer, Some(ready)), Ok(()));
    assert_eq!(
        check_acquisition(Family::Layer, None),
        Err("no ready decoder layer session".to_string())
    );
    assert_eq!(
        check_acquisition(Family::Layer, Some(StoredFlags { poisoned: false, ready: false })),
        Err("no ready decoder layer session".to_string())
    );
    assert_eq!(
        check_acquisition(Family::Layer, Some(StoredFlags { poisoned: true, ready: true })),
        Err("decoder layer session is terminally poisoned".to_string())
    );
    assert_eq!(lease_failure(Family::Kv), "no stored decoder KV session");
}

#[test]
fn failure_messages_name_everything() {
    let captures = vec!["a".to_string(), "b".to_string()];
    let failures = vec!["c".to_string()];
    assert_eq!(
        drain_appended_message("x".to_string(), &captures, &failures),
        "x; captured WebGPU error: a; captured WebGPU error: b; scope cleanup failure: c"
    );
    assert_eq!(
        captured_failure_message(Family::Stack, &captures, &failures),
        "decoder stack session captured WebGPU errors: [a] [b]; scope cleanup failure: c"
    );
}
