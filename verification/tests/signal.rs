use bombuscv_display::SignalFlag;

#[test]
fn flag_starts_down() {
    let mut flag = SignalFlag::new();
    assert!(!flag.pending);
    assert!(!flag.take());
}

#[test]
fn flag_is_observed_once() {
    let mut flag = SignalFlag::new();
    flag.raise();
    assert!(flag.take());
    assert!(!flag.take());
}

#[test]
fn flag_raised_twice_is_observed_once() {
    let mut flag = SignalFlag::new();
    flag.raise();
    flag.raise();
    let mut logging = false;
    for _ in 0..3 {
        if flag.take() {
            logging = !logging;
        }
    }
    assert!(logging);
}
