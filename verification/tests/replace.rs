use std::collections::HashMap;
use updater::error::{ErrorKind, UpdateError};
use updater::locker::Locker;
use updater::replace::{Place, ReplaceAction, ReplaceEvent, ReplacePhase, Replacement};

/// Files kept in memory, with renames that can be made to fail.
struct Disk {
    files: HashMap<&'static str, Vec<u8>>,
    failing: Vec<(Place, Place)>,
}

fn path(place: Place) -> &'static str {
    match place {
        Place::Replacement => "updater.new",
        Place::Target => "updater",
        Place::Backup => "updater.tmp",
    }
}

impl Disk {
    fn rename(&mut self, from: Place, to: Place) -> Option<String> {
        if self.failing.contains(&(from, to)) {
            return Some(format!("cannot rename {} to {}", path(from), path(to)));
        }
        match self.files.remove(path(from)) {
            Some(content) => {
                self.files.insert(path(to), content);
                None
            }
            None => Some(format!("{} does not exist", path(from))),
        }
    }
}

fn replace_exe(disk: &mut Disk) -> Result<(), UpdateError> {
    let mut swap = Replacement::new();
    let mut action = swap.step(ReplaceEvent::Started);
    loop {
        let event = match action {
            ReplaceAction::CheckReplacement => ReplaceEvent::Checked {
                exists: disk.files.contains_key(path(Place::Replacement)),
            },
            ReplaceAction::Rename { from, to } => ReplaceEvent::Renamed {
                error: disk.rename(from, to),
            },
            ReplaceAction::Finish(result) => return result,
        };
        assert!(swap.accepts(&event));
        action = swap.step(event);
    }
}

fn disk(files: &[(&'static str, &[u8])], failing: Vec<(Place, Place)>) -> Disk {
    Disk {
        files: files.iter().map(|(name, content)| (*name, content.to_vec())).collect(),
        failing,
    }
}

#[test]
fn replace_puts_the_replacement_in_place_and_keeps_a_backup() {
    let mut d = disk(&[("updater", b"A"), ("updater.new", b"B")], vec![]);
    assert!(replace_exe(&mut d).is_ok());
    assert_eq!(d.files.get("updater").unwrap(), b"B");
    assert_eq!(d.files.get("updater.tmp").unwrap(), b"A");
    assert!(!d.files.contains_key("updater.new"));
}

#[test]
fn replace_rolls_back_when_the_replacement_cannot_move() {
    let mut d = disk(
        &[("updater", b"A"), ("updater.new", b"B")],
        vec![(Place::Replacement, Place::Target)],
    );
    let error = replace_exe(&mut d).unwrap_err();
    assert_eq!(error.kind(), ErrorKind::Io);
    assert_eq!(error.to_string(), "cannot rename updater.new to updater");
    assert_eq!(d.files.get("updater").unwrap(), b"A");
    assert_eq!(d.files.get("updater.new").unwrap(), b"B");
    assert!(!d.files.contains_key("updater.tmp"));
}

#[test]
fn replace_reports_a_failed_rollback_apart() {
    let mut d = disk(
        &[("updater", b"A"), ("updater.new", b"B")],
        vec![(Place::Replacement, Place::Target), (Place::Backup, Place::Target)],
    );
    let error = replace_exe(&mut d).unwrap_err();
    assert_eq!(error.kind(), ErrorKind::UnrecoverableState);
    assert_eq!(error.to_string(), "cannot rename updater.new to updater");
    assert!(!d.files.contains_key("updater"));
    assert_eq!(d.files.get("updater.tmp").unwrap(), b"A");
}

#[test]
fn replace_touches_nothing_without_a_replacement() {
    let mut d = disk(&[("updater", b"A")], vec![]);
    let error = replace_exe(&mut d).unwrap_err();
    assert_eq!(error.kind(), ErrorKind::NotFound);
    assert_eq!(error.to_string(), "Replacement file does not exist!");
    assert_eq!(d.files.len(), 1);
    assert_eq!(d.files.get("updater").unwrap(), b"A");
}

#[test]
fn replace_fails_when_the_target_cannot_move() {
    let mut d = disk(
        &[("updater", b"A"), ("updater.new", b"B")],
        vec![(Place::Target, Place::Backup)],
    );
    let error = replace_exe(&mut d).unwrap_err();
    assert_eq!(error.kind(), ErrorKind::Io);
    assert_eq!(error.to_string(), "cannot rename updater to updater.tmp");
    assert_eq!(d.files.get("updater").unwrap(), b"A");
    assert_eq!(d.files.get("updater.new").unwrap(), b"B");
}

#[test]
fn replace_asks_for_the_three_renames_in_order() {
    let mut swap = Replacement::new();
    assert!(matches!(swap.phase(), ReplacePhase::Idle));
    assert!(matches!(swap.step(ReplaceEvent::Started), ReplaceAction::CheckReplacement));
    assert!(matches!(
        swap.step(ReplaceEvent::Checked { exists: true }),
        ReplaceAction::Rename { from: Place::Target, to: Place::Backup }
    ));
    assert!(matches!(
        swap.step(ReplaceEvent::Renamed { error: None }),
        ReplaceAction::Rename { from: Place::Replacement, to: Place::Target }
    ));
    assert!(matches!(
        swap.step(ReplaceEvent::Renamed { error: Some("busy".to_string()) }),
        ReplaceAction::Rename { from: Place::Backup, to: Place::Target }
    ));
    assert!(matches!(swap.phase(), ReplacePhase::Restoring(reason) if reason == "busy"));
    assert!(matches!(
        swap.step(ReplaceEvent::Renamed { error: None }),
        ReplaceAction::Finish(Err(_))
    ));
    assert!(matches!(swap.phase(), ReplacePhase::Done));
}

#[test]
fn replace_refuses_an_outcome_that_was_not_asked_for() {
    let mut swap = Replacement::new();
    assert!(!swap.accepts(&ReplaceEvent::Renamed { error: None }));
    match swap.step(ReplaceEvent::Renamed { error: None }) {
        ReplaceAction::Finish(Err(e)) => assert_eq!(e.kind(), ErrorKind::OutOfTurn),
        other => panic!("no failure: {:?}", other),
    }
    assert!(!swap.accepts(&ReplaceEvent::Started));
}

#[test]
fn lock_is_held_once_granted() {
    let mut locker = Locker::default();
    assert!(!locker.is_locked());
    assert!(locker.must_ask());
    assert!(!locker.lock(false));
    assert!(!locker.is_locked());
    assert!(locker.lock(true));
    assert!(locker.is_locked());
    assert!(!locker.must_ask());
    // already held: the answer of the system does not count
    assert!(locker.lock(false));
    assert!(locker.is_locked());
}

#[test]
fn unlock_gives_back_a_held_lock() {
    let mut locker = Locker::new();
    assert!(!locker.unlock(true));
    locker.lock(true);
    assert!(!locker.unlock(false));
    assert!(locker.is_locked());
    assert!(locker.unlock(true));
    assert!(!locker.is_locked());
}

#[test]
fn acquire_fails_while_another_instance_runs() {
    let mut locker = Locker::new();
    let error = locker.acquire(false).unwrap_err();
    assert_eq!(error.kind(), ErrorKind::LockHeld);
    assert_eq!(error.to_string(), "Process already running!");
    assert!(locker.acquire(true).is_ok());
    assert!(locker.acquire(false).is_ok());
}
