use bombuscv_display::args::{MAX_DELAY, MIN_DELAY};
use bombuscv_display::{parse_brightness, Args, Brightness};

#[test]
fn brightness_levels_by_name() {
    assert_eq!(parse_brightness("dimmest"), Ok(Brightness::Dimmest));
    assert_eq!(parse_brightness("dim"), Ok(Brightness::Dim));
    assert_eq!(parse_brightness("normal"), Ok(Brightness::Normal));
    assert_eq!(parse_brightness("bright"), Ok(Brightness::Bright));
    assert_eq!(parse_brightness("brightest"), Ok(Brightness::Brightest));
}

#[test]
fn brightness_rejects_other_words() {
    let refused = Err(String::from("invalid brightness level"));
    assert_eq!(parse_brightness(""), refused);
    assert_eq!(parse_brightness("Dim"), refused);
    assert_eq!(parse_brightness("dimm"), refused);
    assert_eq!(parse_brightness(" bright"), refused);
    assert_eq!(parse_brightness("brighter"), refused);
}

#[test]
fn args_defaults() {
    let args = Args::default();
    assert_eq!(args.thermal, "/sys/class/thermal/thermal_zone0/temp");
    assert_eq!(args.interface, "wlan0");
    assert_eq!(args.delay, 2000);
    assert_eq!(args.refresh, 1000);
    assert_eq!(args.brightness, Brightness::Brightest);
}

#[test]
fn args_delay_is_bounded() {
    let build = |delay: u64| {
        Args::new(String::from("/t"), String::from("eth0"), delay, 250, Brightness::Dim)
    };
    assert_eq!(MIN_DELAY, 100);
    assert_eq!(MAX_DELAY, 20000);
    assert!(build(0).is_none());
    assert!(build(99).is_none());
    assert!(build(20000).is_none());
    assert!(build(u64::MAX).is_none());
    assert_eq!(build(19999).unwrap().delay, 19999);
    let args = build(100).unwrap();
    assert_eq!(args.thermal, "/t");
    assert_eq!(args.interface, "eth0");
    assert_eq!(args.delay, 100);
    assert_eq!(args.refresh, 250);
    assert_eq!(args.brightness, Brightness::Dim);
}
