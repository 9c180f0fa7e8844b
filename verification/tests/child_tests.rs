use rups::child::{Process, ProcessError, SpawnOutcome};
use rups::pty::{Columns, Rows};

fn started(pid: u32) -> SpawnOutcome {
    SpawnOutcome::Started { pid, started_at: String::from("now") }
}

#[test]
fn window_size_is_the_componentwise_minimum() {
    let mut process = Process::new(vec![String::from("cat")], false);
    assert!(process.spawn(started(10)).is_ok());
    // Three clients report sizes; the applied size is the
    // component-wise minimum.
    process.set_window_size(1, (Rows(80), Columns(24)));
    process.set_window_size(2, (Rows(100), Columns(30)));
    let applied = process.set_window_size(3, (Rows(60), Columns(20)));
    assert_eq!(applied, Some((Rows(60), Columns(20))));
    // Removing the smallest entry yields the minimum of the rest.
    let applied = process.remove_window_size(3);
    assert_eq!(applied, Some((Rows(80), Columns(24))));
}

#[test]
fn minimum_mixes_components_across_clients() {
    let mut process = Process::new(vec![String::from("cat")], false);
    assert!(process.spawn(started(11)).is_ok());
    process.set_window_size(1, (Rows(50), Columns(90)));
    let applied = process.set_window_size(2, (Rows(70), Columns(40)));
    assert_eq!(applied, Some((Rows(50), Columns(40))));
}

#[test]
fn window_sizes_replace_per_peer_and_persist() {
    let mut process = Process::new(vec![String::from("cat")], false);
    assert!(process.spawn(started(12)).is_ok());
    process.set_window_size(1, (Rows(10), Columns(10)));
    // The same peer reports again: its entry is replaced, not added.
    let applied = process.set_window_size(1, (Rows(90), Columns(90)));
    assert_eq!(applied, Some((Rows(90), Columns(90))));
    // The map persists across a respawn.
    assert!(process.wait(0).is_ok());
    assert!(process.spawn(started(13)).is_ok());
    let applied = process.set_window_size(2, (Rows(95), Columns(85)));
    assert_eq!(applied, Some((Rows(90), Columns(85))));
}

#[test]
fn no_resize_without_a_live_child() {
    let mut process = Process::new(vec![String::from("cat")], false);
    let applied = process.set_window_size(1, (Rows(80), Columns(24)));
    assert_eq!(applied, None);
}

#[test]
fn removing_the_last_client_applies_nothing() {
    let mut process = Process::new(vec![String::from("cat")], false);
    assert!(process.spawn(started(14)).is_ok());
    process.set_window_size(1, (Rows(80), Columns(24)));
    assert_eq!(process.remove_window_size(1), None);
}

#[test]
fn spawn_is_refused_while_a_child_lives() {
    let mut process = Process::new(vec![String::from("cat")], false);
    assert!(process.spawn(started(20)).is_ok());
    assert!(matches!(
        process.spawn(started(21)),
        Err(ProcessError::ProcessAlreadySpawned)
    ));
    assert_eq!(process.id(), Some(20));
}

#[test]
fn failed_spawn_leaves_the_record_retryable() {
    let mut process = Process::new(vec![String::from("nosuch")], false);
    assert!(matches!(
        process.spawn(SpawnOutcome::Failed(2)),
        Err(ProcessError::IoError(2))
    ));
    assert_eq!(process.id(), None);
    // The failure did not corrupt the record: a retry may succeed.
    assert!(process.spawn(started(22)).is_ok());
}

#[test]
fn lifecycle_spawn_wait_respawn() {
    let mut process = Process::new(vec![String::from("cat")], false);
    assert!(matches!(process.wait(0), Err(ProcessError::NoChild)));
    assert!(matches!(process.kill(), Err(ProcessError::NoChild)));
    assert!(process.spawn(started(30)).is_ok());
    assert!(process.started_at().is_some());
    assert!(process.kill().is_ok());
    // Killing does not reap: the child is still recorded until the
    // death signal arrives.
    assert_eq!(process.id(), Some(30));
    assert!(matches!(process.wait(9), Ok(9)));
    assert_eq!(process.id(), None);
    assert!(process.spawn(started(31)).is_ok());
    assert_eq!(process.id(), Some(31));
}
