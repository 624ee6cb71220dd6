use elasticsearch_index_cleaner::retire::{split_filter, Action, Event, Phase, Retirement};
use elasticsearch_index_cleaner::snapshot::SnapshotRecord;

fn rec(name: &str, state: &str) -> SnapshotRecord {
    SnapshotRecord::new(name.to_string(), state)
}

fn names(v: &[&str]) -> Vec<String> {
    v.iter().map(|x| x.to_string()).collect()
}

fn is_create(a: &Action, repo: &str, name: &str) -> bool {
    matches!(a, Action::CreateSnapshot { repository, snapshot } if repository == repo && snapshot == name)
}

fn is_status(a: &Action, repo: &str, name: &str) -> bool {
    matches!(a, Action::ListSnapshotStatus { repository, snapshot } if repository == repo && snapshot == name)
}

fn is_delete(a: &Action, name: &str) -> bool {
    matches!(a, Action::DeleteIndex { index } if index == name)
}

#[test]
fn filter_is_split_on_commas() {
    assert_eq!(
        split_filter("istio-system-*,kong-*,kube-system-*,pulsar-*,logstash-*"),
        names(&["istio-system-*", "kong-*", "kube-system-*", "pulsar-*", "logstash-*"])
    );
    assert_eq!(split_filter("logstash-*"), names(&["logstash-*"]));
    assert_eq!(split_filter(""), names(&[""]));
    assert_eq!(split_filter("a,,b,"), names(&["a", "", "b", ""]));
}

#[test]
fn empty_listing_finishes_without_calls() {
    let (mut m, a) = Retirement::start("backup-repo".to_string(), Vec::new());
    assert!(matches!(a, Action::Finish));
    assert_eq!(m.phase, Phase::Completed);
    assert!(matches!(m.step(Event::Slept), Action::Finish));
    assert!(matches!(m.step(Event::Status(vec![rec("x", "SUCCESS")])), Action::Finish));
}

#[test]
fn outdated_index_is_snapshotted_then_deleted() {
    let (mut m, a) = Retirement::start("backup-repo".to_string(), names(&["logs-2021.01.01"]));
    assert!(matches!(a, Action::ListRunningSnapshots));
    let a = m.step(Event::Status(Vec::new()));
    assert!(is_create(&a, "backup-repo", "logs-2021.01.01"));
    let a = m.step(Event::Created);
    assert!(is_status(&a, "backup-repo", "logs-2021.01.01"));
    let a = m.step(Event::Status(vec![rec("logs-2021.01.01", "IN_PROGRESS")]));
    assert!(matches!(a, Action::Sleep { secs: 10 }));
    let a = m.step(Event::Slept);
    assert!(is_status(&a, "backup-repo", "logs-2021.01.01"));
    let a = m.step(Event::Status(vec![rec("logs-2021.01.01", "SUCCESS")]));
    assert!(is_delete(&a, "logs-2021.01.01"));
    let a = m.step(Event::Deleted);
    assert!(matches!(a, Action::Finish));
    assert_eq!(m.phase, Phase::Completed);
}

#[test]
fn gate_waits_for_unrelated_snapshot_and_indices_go_one_by_one() {
    let (mut m, a) = Retirement::start("backup-repo".to_string(), names(&["a", "b"]));
    assert!(matches!(a, Action::ListRunningSnapshots));
    let a = m.step(Event::Status(vec![rec("someone-else", "IN_PROGRESS")]));
    assert!(matches!(a, Action::Sleep { secs: 10 }));
    let a = m.step(Event::Slept);
    assert!(matches!(a, Action::ListRunningSnapshots));
    let a = m.step(Event::Status(vec![rec("someone-else", "IN_PROGRESS")]));
    assert!(matches!(a, Action::Sleep { secs: 10 }));
    let a = m.step(Event::Slept);
    assert!(matches!(a, Action::ListRunningSnapshots));
    let a = m.step(Event::Status(Vec::new()));
    assert!(is_create(&a, "backup-repo", "a"));
    let a = m.step(Event::Created);
    assert!(is_status(&a, "backup-repo", "a"));
    assert_eq!(m.current, 0);
    let a = m.step(Event::Status(vec![rec("a", "SUCCESS")]));
    assert!(is_delete(&a, "a"));
    assert_eq!(m.current, 0);
    let a = m.step(Event::Deleted);
    assert!(matches!(a, Action::ListRunningSnapshots));
    assert_eq!(m.current, 1);
    let a = m.step(Event::Status(Vec::new()));
    assert!(is_create(&a, "backup-repo", "b"));
    let a = m.step(Event::Created);
    assert!(is_status(&a, "backup-repo", "b"));
    let a = m.step(Event::Status(vec![rec("a", "SUCCESS"), rec("b", "SUCCESS")]));
    assert!(is_delete(&a, "b"));
    assert!(matches!(m.step(Event::Deleted), Action::Finish));
}

#[test]
fn failed_snapshot_creation_aborts_the_run() {
    let (mut m, _) = Retirement::start("backup-repo".to_string(), names(&["a", "b"]));
    let a = m.step(Event::Status(Vec::new()));
    assert!(is_create(&a, "backup-repo", "a"));
    let a = m.step(Event::CallFailed);
    assert!(matches!(a, Action::Abort));
    assert_eq!(m.phase, Phase::Failed);
    assert_eq!(m.current, 0);
    assert!(matches!(m.step(Event::Status(vec![rec("a", "SUCCESS")])), Action::Abort));
    assert!(matches!(m.step(Event::Deleted), Action::Abort));
}

#[test]
fn failed_or_partial_snapshot_keeps_polling() {
    let (mut m, _) = Retirement::start("repo".to_string(), names(&["a"]));
    m.step(Event::Status(Vec::new()));
    m.step(Event::Created);
    let a = m.step(Event::Status(vec![rec("a", "FAILED")]));
    assert!(matches!(a, Action::Sleep { secs: 10 }));
    let a = m.step(Event::Slept);
    assert!(is_status(&a, "repo", "a"));
    let a = m.step(Event::Status(vec![rec("a", "PARTIAL")]));
    assert!(matches!(a, Action::Sleep { secs: 10 }));
    assert_eq!(m.phase, Phase::PollWait);
}

#[test]
fn unexpected_event_fails_the_run() {
    let (mut m, _) = Retirement::start("repo".to_string(), names(&["a"]));
    assert!(matches!(m.step(Event::Deleted), Action::Abort));
    assert_eq!(m.phase, Phase::Failed);
}

#[test]
fn status_call_failure_while_polling_aborts() {
    let (mut m, _) = Retirement::start("repo".to_string(), names(&["a"]));
    m.step(Event::Status(Vec::new()));
    m.step(Event::Created);
    assert!(matches!(m.step(Event::CallFailed), Action::Abort));
}
