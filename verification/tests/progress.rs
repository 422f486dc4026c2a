use updater::progress::{Progress, Ratio};

fn as_f64(r: Ratio) -> f64 {
    r.num as f64 / r.den as f64
}

#[test]
fn new_keeps_what_it_is_given() {
    let p = Progress::new(false, true, true, 3, 9);
    assert!(!p.indeterminate());
    assert!(p.complete());
    assert!(p.cancelled());
    assert_eq!(p.current(), 3);
    assert_eq!(p.maximum(), 9);
}

#[test]
fn default_is_the_initial_state() {
    let p = Progress::default();
    assert!(p.indeterminate());
    assert!(!p.complete());
    assert!(!p.cancelled());
    assert_eq!(p.current(), 0);
    assert_eq!(p.maximum(), 0);
}

#[test]
fn setters_change_one_field_each() {
    let mut p = Progress::default();
    p.set_indeterminate(false);
    p.set_maximum(100);
    p.set_current(40);
    assert_eq!((p.indeterminate(), p.complete(), p.cancelled()), (false, false, false));
    assert_eq!((p.current(), p.maximum()), (40, 100));
    p.set_cancelled(true);
    assert_eq!((p.indeterminate(), p.complete(), p.cancelled()), (false, false, true));
    p.set_complete(true);
    assert_eq!((p.indeterminate(), p.complete(), p.cancelled()), (false, true, true));
    assert_eq!((p.current(), p.maximum()), (40, 100));
}

#[test]
fn reset_restores_the_initial_state() {
    let mut p = Progress::new(false, true, true, 5, 9);
    p.reset();
    assert!(p.indeterminate());
    assert!(!p.complete());
    assert!(!p.cancelled());
    assert_eq!(p.current(), 0);
    assert_eq!(p.maximum(), 0);
}

#[test]
fn add_saturates() {
    let mut p = Progress::new(false, false, false, u64::MAX - 2, u64::MAX - 1);
    p.add_current(1);
    assert_eq!(p.current(), u64::MAX - 1);
    p.add_current(5);
    assert_eq!(p.current(), u64::MAX);
    p.add_maximum(1);
    assert_eq!(p.maximum(), u64::MAX);
    p.add_maximum(u64::MAX);
    assert_eq!(p.maximum(), u64::MAX);
}

#[test]
fn percent_is_current_over_maximum() {
    let p = Progress::new(false, false, false, 25, 100);
    assert_eq!(p.percent(), Ratio { num: 25, den: 100 });
    assert_eq!(as_f64(p.percent()), 0.25);
}

#[test]
fn percent_is_one_when_complete() {
    assert_eq!(Progress::new(true, true, false, 0, 0).percent(), Ratio { num: 1, den: 1 });
    assert_eq!(Progress::new(false, true, true, 7, 1000).percent(), Ratio { num: 1, den: 1 });
    assert_eq!(as_f64(Progress::new(false, true, false, 3, 0).percent()), 1.0);
}

#[test]
fn percent_is_zero_when_indeterminate_or_empty() {
    let zero = Ratio { num: 0, den: 1 };
    assert_eq!(Progress::new(true, false, false, 5, 10).percent(), zero);
    assert_eq!(Progress::new(false, false, false, 0, 10).percent(), zero);
    assert_eq!(Progress::new(false, false, false, 5, 0).percent(), zero);
    assert_eq!(as_f64(Progress::default().percent()), 0.0);
}

#[test]
fn percent_does_not_decrease_as_current_grows() {
    let mut p = Progress::new(false, false, false, 0, 1000);
    let mut last = as_f64(p.percent());
    for amount in [0u64, 1, 10, 0, 500, 489, 100, u64::MAX] {
        p.add_current(amount);
        let now = as_f64(p.percent());
        assert!(now >= last);
        last = now;
    }
    assert_eq!(p.current(), u64::MAX);
}
