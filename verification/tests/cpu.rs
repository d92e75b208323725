use bombuscv_display::sys_info::{Cpu, CpuInfo, CpuTimes};
use bombuscv_display::tenths::Tenths;
use bombuscv_display::ErrorKind;

fn times(idle: u64, busy: u64) -> CpuTimes {
    CpuTimes { user: busy, nice: 0, system: 0, idle, iowait: None, irq: None, softirq: None }
}

/// Test cpu.usage().
#[test]
fn cpu_usage() {
    let mut cpu = Cpu::new("/sys/class/thermal/thermal_zone0", &times(900, 100));
    let mut idle = 900;
    let mut busy = 100;
    for _ in 0..10 {
        idle += 75;
        busy += 25;
        let line = cpu.read_info(&times(idle, busy), "45000\n").unwrap();
        println!("CPU: {:#?}", line);
        assert_eq!(line, "25.0% 45.0C");
    }
}

#[test]
fn cpu_total_counts_missing_counters_as_zero() {
    let stat = CpuTimes {
        user: 1,
        nice: 2,
        system: 3,
        idle: 4,
        iowait: Some(5),
        irq: None,
        softirq: Some(7),
    };
    assert_eq!(Cpu::get_times(&stat), (4, 22));
    let stat = CpuTimes { iowait: None, irq: Some(6), softirq: None, ..stat };
    assert_eq!(Cpu::get_times(&stat), (4, 16));
}

#[test]
fn cpu_total_does_not_overflow() {
    let max = u64::MAX;
    let stat = CpuTimes {
        user: max,
        nice: max,
        system: max,
        idle: max,
        iowait: Some(max),
        irq: Some(max),
        softirq: Some(max),
    };
    assert_eq!(Cpu::get_times(&stat), (max, 7 * (max as u128)));
}

#[test]
fn cpu_usage_lies_between_0_and_100() {
    let samples = [(0, 0), (10, 90), (10, 0), (0, 1), (7, 3), (1, 2), (1000, 1), (3, 997)];
    let mut cpu = Cpu::new("zone", &times(0, 0));
    let mut idle = 0;
    let mut busy = 0;
    for (idle_step, busy_step) in samples {
        idle += idle_step;
        busy += busy_step;
        let usage = cpu.usage(&times(idle, busy));
        assert!(0 <= usage.raw && usage.raw <= 1000);
    }
}

#[test]
fn cpu_usage_is_zero_where_idle_keeps_up_with_total() {
    let mut cpu = Cpu::new("zone", &times(500, 500));
    assert_eq!(cpu.usage(&times(1500, 500)), Tenths { raw: 0 });
}

#[test]
fn cpu_usage_is_full_where_idle_stands_still() {
    let mut cpu = Cpu::new("zone", &times(500, 500));
    assert_eq!(cpu.usage(&times(500, 1500)), Tenths { raw: 1000 });
}

#[test]
fn cpu_usage_exact_values() {
    let mut cpu = Cpu::new("zone", &times(0, 0));
    // 1 busy tick of 3: 33.33 % is shown as 33.3 %.
    assert_eq!(cpu.usage(&times(2, 1)), Tenths { raw: 333 });
    // 2 busy ticks of 3: 66.67 % is shown as 66.7 %.
    assert_eq!(cpu.usage(&times(3, 3)), Tenths { raw: 667 });
    // 1 busy tick of 2000: 0.05 % is rounded upward.
    assert_eq!(cpu.usage(&times(2002, 4)), Tenths { raw: 1 });
    assert_eq!(cpu.idle_time, 2002);
    assert_eq!(cpu.total_time, 2006);
}

#[test]
fn cpu_first_sample_has_no_usage() {
    let baseline = times(900, 100);
    let mut cpu = Cpu::new("zone", &baseline);
    assert_eq!(cpu.usage(&baseline), Tenths { raw: 0 });
}

#[test]
fn cpu_counters_that_ran_backwards_give_no_usage() {
    let mut cpu = Cpu::new("zone", &times(900, 100));
    assert_eq!(cpu.usage(&times(800, 50)), Tenths { raw: 0 });
    assert_eq!(cpu.idle_time, 800);
    assert_eq!(cpu.total_time, 850);
    // The idle counter ran backwards while the total advanced.
    assert_eq!(cpu.usage(&times(700, 250)), Tenths { raw: 1000 });
}

#[test]
fn cpu_temp_is_millidegrees_over_a_thousand() {
    let cpu = Cpu::new("zone", &times(0, 0));
    assert_eq!(cpu.temp("45123\n"), Ok(Tenths { raw: 451 }));
    assert_eq!(cpu.temp("45150"), Ok(Tenths { raw: 452 }));
    assert_eq!(cpu.temp("  45049 \t\n"), Ok(Tenths { raw: 450 }));
    assert_eq!(cpu.temp("0"), Ok(Tenths { raw: 0 }));
    assert_eq!(cpu.temp("+49"), Ok(Tenths { raw: 0 }));
    assert_eq!(cpu.temp("-5250"), Ok(Tenths { raw: -53 }));
    assert_eq!(cpu.temp("-49"), Ok(Tenths { raw: 0 }));
    assert_eq!(cpu.temp("45000.5"), Ok(Tenths { raw: 450 }));
    assert_eq!(cpu.temp("45049.999"), Ok(Tenths { raw: 450 }));
    assert_eq!(cpu.temp("45050.0"), Ok(Tenths { raw: 451 }));
    assert_eq!(cpu.temp("45123."), Ok(Tenths { raw: 451 }));
    assert_eq!(cpu.temp(".9"), Ok(Tenths { raw: 0 }));
    assert_eq!(cpu.temp("-49.9"), Ok(Tenths { raw: 0 }));
    assert_eq!(cpu.temp("-50.0\n"), Ok(Tenths { raw: -1 }));
    assert_eq!(cpu.temp("0045000.00"), Ok(Tenths { raw: 450 }));
    assert_eq!(cpu.temp("9223372036854775807.9"), Ok(Tenths { raw: 92233720368547758 }));
    assert_eq!(cpu.temp("9223372036854775807"), Ok(Tenths { raw: 92233720368547758 }));
    assert_eq!(cpu.temp("-9223372036854775808"), Ok(Tenths { raw: -92233720368547758 }));
}

#[test]
fn cpu_temp_rejects_what_is_no_temperature() {
    let cpu = Cpu::new("/sys/zone", &times(0, 0));
    let refused = Err(ErrorKind::FileReadErr(
        String::from("/sys/zone"),
        String::from("invalid temperature value"),
    ));
    assert_eq!(cpu.temp(""), refused);
    assert_eq!(cpu.temp("\n"), refused);
    assert_eq!(cpu.temp("warm"), refused);
    assert_eq!(cpu.temp("45 123"), refused);
    assert_eq!(cpu.temp("45123.5.5"), refused);
    assert_eq!(cpu.temp("."), refused);
    assert_eq!(cpu.temp("-."), refused);
    assert_eq!(cpu.temp("45,5"), refused);
    assert_eq!(cpu.temp("4.5e4"), refused);
    assert_eq!(cpu.temp("nan"), refused);
    assert_eq!(cpu.temp("9223372036854775808.0"), refused);
    assert_eq!(cpu.temp("-"), refused);
    assert_eq!(cpu.temp("9223372036854775808"), refused);
    assert_eq!(cpu.temp("-9223372036854775809"), refused);
    assert_eq!(cpu.temp("123456789012345678901234567890"), refused);
}

#[test]
fn cpu_info_samples_usage_and_temperature() {
    let mut cpu = Cpu::new("zone", &times(0, 0));
    let info = cpu.info(&times(50, 50), "38500").unwrap();
    assert_eq!(info, CpuInfo { usage: Tenths { raw: 500 }, temp: Tenths { raw: 385 } });
    assert_eq!(info.to_text(), "50.0% 38.5C");
    // The counters advance even where the temperature cannot be had.
    assert!(cpu.info(&times(100, 100), "?").is_err());
    assert_eq!(cpu.idle_time, 100);
    assert_eq!(cpu.total_time, 200);
}

#[test]
fn cpu_info_default_is_zero() {
    assert_eq!(CpuInfo::default(), CpuInfo { usage: Tenths { raw: 0 }, temp: Tenths { raw: 0 } });
    assert_eq!(CpuInfo::default().to_text(), "0.0% 0.0C");
}

#[test]
fn tenths_are_shown_with_one_decimal() {
    assert_eq!(Tenths { raw: 0 }.to_text(), "0.0");
    assert_eq!(Tenths { raw: 7 }.to_text(), "0.7");
    assert_eq!(Tenths { raw: 1000 }.to_text(), "100.0");
    assert_eq!(Tenths { raw: 1234 }.to_text(), "123.4");
    assert_eq!(Tenths { raw: -5 }.to_text(), "-0.5");
    assert_eq!(Tenths { raw: -405 }.to_text(), "-40.5");
    assert_eq!(
        Tenths { raw: i128::MAX }.to_text(),
        "17014118346046923173168730371588410572.7"
    );
    assert_eq!(
        Tenths { raw: i128::MIN }.to_text(),
        "-17014118346046923173168730371588410572.8"
    );
}
