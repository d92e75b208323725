use bombuscv_display::source::{measurement_step, sampler_start, sampler_step, Line, Step, Thermal};
use bombuscv_display::sys_info::{Cpu, CpuInfo, CpuTimes};
use bombuscv_display::tenths::Tenths;
use bombuscv_display::{ErrorKind, Measure};

fn times(idle: u64, busy: u64) -> CpuTimes {
    CpuTimes { user: 0, nice: 0, system: busy, idle, iowait: Some(0), irq: Some(0), softirq: None }
}

#[test]
fn telemetry_line_is_sent_on() {
    assert_eq!(
        measurement_step(Line::Text(String::from("55.2,21.0"))),
        Step::Send(Measure::from_csv("55.2,21.0").unwrap())
    );
}

#[test]
fn malformed_line_ends_the_source() {
    for line in ["", "55.2", "a,b", "1,2,3"] {
        assert_eq!(
            measurement_step(Line::Text(String::from(line))),
            Step::Stop(Err(ErrorKind::InvalidInputFormat))
        );
    }
}

#[test]
fn unreadable_line_ends_the_source() {
    assert_eq!(
        measurement_step(Line::Unreadable(String::from("stream did not contain valid UTF-8"))),
        Step::Stop(Err(ErrorKind::StdinErr(String::from("stream did not contain valid UTF-8"))))
    );
}

#[test]
fn end_of_stream_ends_the_source_cleanly() {
    assert_eq!(measurement_step(Line::End), Step::Stop(Ok(())));
}

#[test]
fn sampler_starts_from_a_baseline() {
    let cpu = sampler_start("/sys/zone", Ok(times(90, 10))).unwrap();
    assert_eq!(
        cpu,
        Cpu { thermal_zone: String::from("/sys/zone"), idle_time: 90, total_time: 100 }
    );
    assert_eq!(
        sampler_start("/sys/zone", Err(String::from("no /proc"))),
        Err(ErrorKind::ProcFsErr(String::from("no /proc")))
    );
}

#[test]
fn sample_is_sent_on() {
    let mut cpu = sampler_start("/sys/zone", Ok(times(90, 10))).unwrap();
    let content = Thermal::Content(String::from("51500\n"));
    assert_eq!(
        sampler_step(&mut cpu, Ok(times(150, 50)), content),
        Step::Send(CpuInfo { usage: Tenths { raw: 400 }, temp: Tenths { raw: 515 } })
    );
    assert_eq!(cpu.idle_time, 150);
    assert_eq!(cpu.total_time, 200);
}

#[test]
fn unreadable_counters_end_the_sampler() {
    let mut cpu = sampler_start("/sys/zone", Ok(times(90, 10))).unwrap();
    let content = Thermal::Content(String::from("51500\n"));
    assert_eq!(
        sampler_step(&mut cpu, Err(String::from("no /proc")), content),
        Step::Stop(Err(ErrorKind::ProcFsErr(String::from("no /proc"))))
    );
    assert_eq!(cpu.idle_time, 90);
    assert_eq!(cpu.total_time, 100);
}

#[test]
fn unreadable_thermal_zone_ends_the_sampler() {
    let zone = || String::from("/sys/zone");
    let mut cpu = sampler_start("/sys/zone", Ok(times(90, 10))).unwrap();
    assert_eq!(
        sampler_step(&mut cpu, Ok(times(91, 11)), Thermal::Unopened(String::from("absent"))),
        Step::Stop(Err(ErrorKind::FileOpenErr(zone(), String::from("absent"))))
    );
    assert_eq!(
        sampler_step(&mut cpu, Ok(times(92, 12)), Thermal::Unread(String::from("torn"))),
        Step::Stop(Err(ErrorKind::FileReadErr(zone(), String::from("torn"))))
    );
    assert_eq!(
        sampler_step(&mut cpu, Ok(times(93, 13)), Thermal::Content(String::from("hot"))),
        Step::Stop(Err(ErrorKind::FileReadErr(zone(), String::from("invalid temperature value"))))
    );
    assert_eq!(cpu.idle_time, 93);
    assert_eq!(cpu.total_time, 106);
}
