use coppers::sensor::{CounterProbe, NvmlSensor, RAPLSensor, Sample, Sensor, SensorError};
use std::time::Duration;

fn probe(max_range: &str) -> CounterProbe {
    CounterProbe {
        enabled: Some(String::from("1\n")),
        energy: Some(String::from("5\n")),
        name: Some(String::from("package-0\n")),
        max_range: Some(String::from(max_range)),
    }
}

fn sensor(max_range: &str) -> RAPLSensor {
    RAPLSensor::new(String::from("/counters/intel-rapl:0"), probe(max_range)).unwrap()
}

fn bracket(s: &mut RAPLSensor, start: u128, end: u128) {
    s.start_measuring(Sample { energy_uj: start, at_ns: 1_000 });
    s.stop_measuring(Sample { energy_uj: end, at_ns: 2_000_000 });
}

#[test]
fn wrapped_counter_energy() {
    let mut s = sensor("1000\n");
    bracket(&mut s, 100, 50);
    assert_eq!(s.get_measured_uj(), 950);
}

#[test]
fn plain_counter_energy() {
    let mut s = sensor("1000\n");
    bracket(&mut s, 100, 150);
    assert_eq!(s.get_measured_uj(), 50);
}

#[test]
fn equal_readings_spend_nothing() {
    let mut s = sensor("1000\n");
    bracket(&mut s, 700, 700);
    assert_eq!(s.get_measured_uj(), 0);
    assert!(s.reading_in_range());
}

#[test]
fn wrapped_reading_outside_range_is_flagged() {
    let mut s = sensor("10\n");
    bracket(&mut s, 100, 50);
    assert!(!s.reading_in_range());
}

#[test]
fn elapsed_is_zero_without_a_bracket() {
    let mut s = sensor("1000\n");
    assert_eq!(s.get_elapsed_time_us(), 0);
    assert_eq!(s.get_duration(), Duration::new(0, 0));
    s.start_measuring(Sample { energy_uj: 1, at_ns: 5_000 });
    assert_eq!(s.get_elapsed_time_us(), 0);
    assert_eq!(s.get_duration(), Duration::new(0, 0));
}

#[test]
fn elapsed_is_zero_when_stop_precedes_start() {
    let mut s = sensor("1000\n");
    s.start_measuring(Sample { energy_uj: 1, at_ns: 9_000_000 });
    s.stop_measuring(Sample { energy_uj: 2, at_ns: 1_000 });
    assert_eq!(s.get_elapsed_time_us(), 0);
    assert_eq!(s.get_duration(), Duration::new(0, 0));
}

#[test]
fn elapsed_of_a_bracket() {
    let mut s = sensor("1000\n");
    s.start_measuring(Sample { energy_uj: 1, at_ns: 1_000 });
    s.stop_measuring(Sample { energy_uj: 2, at_ns: 3_000_002_999 });
    assert_eq!(s.get_elapsed_time_us(), 3_000_001);
    assert_eq!(s.get_duration(), Duration::new(3, 1_999));
}

#[test]
fn restart_discards_earlier_start() {
    let mut s = sensor("1000\n");
    s.start_measuring(Sample { energy_uj: 10, at_ns: 0 });
    s.start_measuring(Sample { energy_uj: 40, at_ns: 0 });
    s.stop_measuring(Sample { energy_uj: 100, at_ns: 0 });
    assert_eq!(s.get_measured_uj(), 60);
}

#[test]
fn acquired_sensor_name_and_location() {
    let s = sensor("1000\n");
    assert_eq!(s.get_name(), "package-0");
    assert_eq!(s.location(), "/counters/intel-rapl:0");
    assert_eq!(s.get_measured_uj(), 0);
}

#[test]
fn unreachable_location_is_unavailable() {
    let mut p = probe("1000\n");
    p.enabled = None;
    let r = RAPLSensor::new(String::from("/nowhere"), p);
    match r {
        Err(e) => {
            assert_eq!(e, SensorError::SensorUnavailable(String::from("/nowhere")));
            assert_eq!(e.message(), "The location `/nowhere` is unreachable");
        }
        Ok(_) => panic!("acquired a sensor at an unreachable location"),
    }
}

#[test]
fn unreadable_counter_is_permission_denied() {
    let mut p = probe("1000\n");
    p.energy = None;
    let r = RAPLSensor::new(String::from("/root/rapl"), p);
    match r {
        Err(e) => {
            assert_eq!(e, SensorError::PermissionDenied(String::from("/root/rapl")));
            assert_eq!(
                e.message(),
                "Insufficient permissions to read from /root/rapl/energy_uj. You might want to retry as root."
            );
        }
        Ok(_) => panic!("acquired a sensor without a readable counter"),
    }
}

#[test]
fn sample_from_counter_text() {
    let s = RAPLSensor::sample("123\n", 77);
    assert_eq!(s, Sample { energy_uj: 123, at_ns: 77 });
    assert_eq!(RAPLSensor::sample("abc\n", 1).energy_uj, 0);
}

#[test]
fn gpu_sensor_counts_millijoules() {
    let mut g = NvmlSensor::new(String::from("gpu0"));
    assert_eq!(NvmlSensor::sample(7, 3), Sample { energy_uj: 7000, at_ns: 3 });
    g.start_measuring(NvmlSensor::sample(2, 0));
    g.stop_measuring(NvmlSensor::sample(5, 4_000));
    assert_eq!(g.get_measured_uj(), 3000);
    assert_eq!(g.get_elapsed_time_us(), 4);
    assert_eq!(g.get_name(), "gpu0");
}

#[test]
fn unreadable_name_or_range_is_unavailable() {
    let mut p = probe("1000\n");
    p.name = None;
    assert_eq!(
        RAPLSensor::new(String::from("/r"), p).err(),
        Some(SensorError::SensorUnavailable(String::from("/r")))
    );
    let mut p = probe("1000\n");
    p.max_range = None;
    assert_eq!(
        RAPLSensor::new(String::from("/r"), p).err(),
        Some(SensorError::SensorUnavailable(String::from("/r")))
    );
}

#[test]
fn measuring_keeps_the_location() {
    let mut s = sensor("1000\n");
    bracket(&mut s, 1, 2);
    assert_eq!(s.location(), "/counters/intel-rapl:0");
}
