use tasks_tracker::lifecycle::{Capability, Change, Effect};
use tasks_tracker::outcome::Rejection;
use tasks_tracker::status::TaskStatus;
use tasks_tracker::task::{NewTask, Task};
use url::Url;

fn fresh() -> Task {
    let request = NewTask {
        duration: 30,
        scope: "scope".to_string(),
        name: "name".to_string(),
        description: "description".to_string(),
        push_address: vec![
            Url::parse("http://one.example/done").unwrap(),
            Url::parse("http://two.example/hook?x=1").unwrap(),
        ],
        payload: vec![1, 2, 3],
    };
    request.into_task(42, ("v".to_string(), "a".to_string(), "u".to_string()))
}

#[test]
fn status_starts_active_and_only_active_is_not_terminal() {
    assert_eq!(TaskStatus::default(), TaskStatus::Active);
    assert!(!TaskStatus::Active.is_terminal());
    assert!(TaskStatus::Done.is_terminal());
    assert!(TaskStatus::Aborted.is_terminal());
}

#[test]
fn changes_are_phrased_as_the_client_sends_them() {
    let progress = Change::progress(50);
    assert_eq!(progress.progress, 50);
    assert_eq!(progress.status, TaskStatus::Active);
    assert_eq!(progress.description_result, None);
    assert!(progress.payload_result.is_empty());
    let finish = Change::finish(Some("ok".to_string()), vec![9]);
    assert_eq!(finish.progress, 100);
    assert_eq!(finish.status, TaskStatus::Done);
    assert_eq!(finish.description_result, Some("ok".to_string()));
    assert_eq!(finish.payload_result, vec![9]);
    let abort = Change::abort(None, vec![]);
    assert_eq!(abort.progress, 0);
    assert_eq!(abort.status, TaskStatus::Aborted);
    assert_eq!(abort.description_result, None);
    assert!(abort.payload_result.is_empty());
}

#[test]
fn update_capability_sets_progress() {
    let mut task = fresh();
    let r = task.apply(Capability::Update, Some(Change::progress(50)));
    assert!(matches!(r, Ok(Effect::Progressed)));
    assert_eq!(task.progress, 50);
    assert_eq!(task.status, TaskStatus::Active);
    let r = task.apply(Capability::Update, Some(Change::progress(0)));
    assert!(matches!(r, Ok(Effect::Progressed)));
    assert_eq!(task.progress, 0);
    let r = task.apply(Capability::Update, Some(Change::progress(255)));
    assert!(matches!(r, Ok(Effect::Progressed)));
    assert_eq!(task.progress, 255);
}

#[test]
fn progress_change_ignores_result_fields() {
    let mut task = fresh();
    let change = Change {
        progress: 10,
        status: TaskStatus::Active,
        description_result: Some("early".to_string()),
        payload_result: vec![7],
    };
    assert!(matches!(task.apply(Capability::Update, Some(change)), Ok(Effect::Progressed)));
    assert_eq!(task.progress, 10);
    assert_eq!(task.description_result, "");
    assert!(task.payload_result.is_empty());
}

#[test]
fn abort_capability_cannot_set_progress() {
    let mut task = fresh();
    let r = task.apply(Capability::Abort, Some(Change::progress(50)));
    assert!(matches!(r, Err(Rejection::InvalidTransition)));
    assert_eq!(task.progress, 0);
    assert_eq!(task.status, TaskStatus::Active);
}

#[test]
fn abort_capability_cannot_finish() {
    let mut task = fresh();
    let r = task.apply(Capability::Abort, Some(Change::finish(Some("done".to_string()), vec![1])));
    assert!(matches!(r, Err(Rejection::InvalidTransition)));
    assert_eq!(task.status, TaskStatus::Active);
    assert_eq!(task.description_result, "");
    assert!(task.payload_result.is_empty());
}

#[test]
fn abort_capability_aborts() {
    let mut task = fresh();
    let r = task.apply(Capability::Abort, Some(Change::abort(Some("stop".to_string()), vec![])));
    match r {
        Ok(Effect::Ended { notify, retire_after }) => {
            assert_eq!(retire_after, 30);
            assert_eq!(notify.len(), 2);
            assert_eq!(notify[0].as_str(), "http://one.example/done");
            assert_eq!(notify[1].as_str(), "http://two.example/hook?x=1");
        }
        _ => panic!("the task should have ended"),
    }
    assert_eq!(task.status, TaskStatus::Aborted);
    assert_eq!(task.description_result, "stop");
}

#[test]
fn update_capability_finishes_and_aborts() {
    let mut done = fresh();
    let r = done.apply(Capability::Update, Some(Change::finish(None, vec![])));
    assert!(matches!(r, Ok(Effect::Ended { retire_after: 30, .. })));
    assert_eq!(done.status, TaskStatus::Done);
    let mut aborted = fresh();
    let r = aborted.apply(Capability::Update, Some(Change::abort(None, vec![])));
    assert!(matches!(r, Ok(Effect::Ended { retire_after: 30, .. })));
    assert_eq!(aborted.status, TaskStatus::Aborted);
}

#[test]
fn ending_keeps_the_progress() {
    let mut task = fresh();
    assert!(task.apply(Capability::Update, Some(Change::progress(60))).is_ok());
    assert!(task.apply(Capability::Update, Some(Change::finish(None, vec![]))).is_ok());
    assert_eq!(task.progress, 60);
}

#[test]
fn terminal_task_refuses_every_change() {
    for end in [Change::finish(None, vec![]), Change::abort(None, vec![])] {
        let mut task = fresh();
        assert!(task.apply(Capability::Update, Some(end)).is_ok());
        let status = task.status;
        for capability in [Capability::Update, Capability::Abort] {
            let attempts = vec![
                Some(Change::progress(5)),
                Some(Change::finish(Some("again".to_string()), vec![1])),
                Some(Change::abort(Some("again".to_string()), vec![1])),
                None,
            ];
            for attempt in attempts {
                let r = task.apply(capability, attempt);
                assert!(matches!(r, Err(Rejection::ReadOnly)));
                assert_eq!(task.status, status);
                assert_eq!(task.progress, 0);
                assert_eq!(task.description_result, "");
                assert!(task.payload_result.is_empty());
            }
        }
    }
}

#[test]
fn undecodable_change_is_malformed() {
    let mut task = fresh();
    assert!(matches!(task.apply(Capability::Update, None), Err(Rejection::Malformed)));
    assert!(matches!(task.apply(Capability::Abort, None), Err(Rejection::Malformed)));
    assert_eq!(task.status, TaskStatus::Active);
}

#[test]
fn supplied_description_overwrites_the_empty_default() {
    let mut task = fresh();
    assert!(task.apply(Capability::Update, Some(Change::finish(Some("all good".to_string()), vec![]))).is_ok());
    assert_eq!(task.description_result, "all good");
}

#[test]
fn finishing_without_description_leaves_it_empty() {
    let mut task = fresh();
    assert!(task.apply(Capability::Update, Some(Change::finish(None, vec![4, 5]))).is_ok());
    assert_eq!(task.description_result, "");
    assert_eq!(task.payload_result, vec![4, 5]);
}

#[test]
fn empty_supplied_values_do_not_overwrite() {
    let mut task = fresh();
    task.description_result = "kept".to_string();
    task.payload_result = vec![8, 8];
    assert!(task.apply(Capability::Update, Some(Change::finish(Some(String::new()), vec![]))).is_ok());
    assert_eq!(task.description_result, "kept");
    assert_eq!(task.payload_result, vec![8, 8]);
    assert_eq!(task.status, TaskStatus::Done);
}

#[test]
fn what_the_creator_gave_never_changes() {
    let mut task = fresh();
    assert!(task.apply(Capability::Update, Some(Change::progress(9))).is_ok());
    assert!(task.apply(Capability::Update, Some(Change::finish(Some("r".to_string()), vec![1]))).is_ok());
    assert_eq!(task.id, 42);
    assert_eq!(task.duration, 30);
    assert_eq!(task.scope, "scope");
    assert_eq!(task.name, "name");
    assert_eq!(task.description, "description");
    assert_eq!(task.payload, vec![1, 2, 3]);
    assert_eq!(task.tokens, ("v".to_string(), "a".to_string(), "u".to_string()));
    assert_eq!(task.push_address.len(), 2);
}

#[test]
fn clone_copies_every_field() {
    let mut task = fresh();
    task.progress = 12;
    task.description_result = "r".to_string();
    task.payload_result = vec![3];
    let copy = task.clone();
    assert_eq!(copy.id, task.id);
    assert_eq!(copy.duration, task.duration);
    assert_eq!(copy.scope, task.scope);
    assert_eq!(copy.name, task.name);
    assert_eq!(copy.description, task.description);
    assert_eq!(copy.payload, task.payload);
    assert_eq!(copy.progress, task.progress);
    assert_eq!(copy.status, task.status);
    assert_eq!(copy.tokens, task.tokens);
    assert_eq!(copy.push_address, task.push_address);
    assert_eq!(copy.description_result, task.description_result);
    assert_eq!(copy.payload_result, task.payload_result);
}
