//! Energy sensors: one hardware energy counter each, read at the start and
//! at the stop of a bracket, with the counter's wraparound taken into account.
use vstd::prelude::*;
use std::time::Duration;

use crate::counter::{counter_reading, parse_counter};

verus! {

/// One reading of a sensor: the counter value in microjoules and the instant
/// of the reading, in nanoseconds on a monotonic clock.
#[derive(Clone, Copy, Debug, PartialEq, Eq, Structural)]
pub struct Sample {
    pub energy_uj: u128,
    pub at_ns: u64,
}

/// The energy spent within a bracket. A counter that went down wrapped
/// around once at `max_range`.
pub open spec fn bracket_energy(start: u128, end: u128, max_range: u128) -> int {
    if end < start {
        (max_range - start) + end
    } else {
        end - start
    }
}

/// Nanoseconds between the two instants of a bracket: zero when either is
/// missing or when the stop precedes the start.
pub open spec fn elapsed_ns(start: Option<u64>, end: Option<u64>) -> nat {
    match (start, end) {
        (Some(s), Some(e)) => if s <= e {
            (e - s) as nat
        } else {
            0
        },
        _ => 0,
    }
}

/// The duration of `secs` seconds and `nanos` nanoseconds.
pub uninterp spec fn duration_of(secs: u64, nanos: u32) -> Duration;

/// Relies on `Duration::new`, which builds the duration of `secs` seconds and
/// `nanos` nanoseconds and panics only when the nanoseconds carry over into
/// seconds beyond `u64::MAX`.
#[verifier::external_body]
fn new_duration(secs: u64, nanos: u32) -> (r: Duration)
    requires
        nanos < 1_000_000_000,
    ensures
        r == duration_of(secs, nanos),
{
    Duration::new(secs, nanos)
}

/// The duration of `ns` nanoseconds.
pub open spec fn duration_from_ns(ns: nat) -> Duration {
    duration_of((ns / 1_000_000_000) as u64, (ns % 1_000_000_000) as u32)
}

/// A sensor that measures energy over brackets of a start and a stop.
pub trait Sensor {
    /// The counter reading at the start of the bracket.
    spec fn energy_start(&self) -> u128;

    /// The counter reading at the stop of the bracket.
    spec fn energy_end(&self) -> u128;

    /// The value at which the counter wraps around to zero.
    spec fn max_range(&self) -> u128;

    /// The instant of the start, once there was one.
    spec fn timer_start(&self) -> Option<u64>;

    /// The instant of the stop, once there was one.
    spec fn timer_end(&self) -> Option<u64>;

    /// The sensor's name.
    spec fn name(&self) -> Seq<char>;

    /// Where the sensor's counter is read.
    spec fn source(&self) -> Seq<char>;

    /// The sensor's name.
    fn get_name(&self) -> (r: String)
        ensures
            r@ == self.name(),
    ;

    /// Opens a bracket at `sample`, discarding any earlier start.
    fn start_measuring(&mut self, sample: Sample)
        ensures
            final(self).energy_start() == sample.energy_uj,
            final(self).timer_start() == Some(sample.at_ns),
            final(self).energy_end() == old(self).energy_end(),
            final(self).timer_end() == old(self).timer_end(),
            final(self).max_range() == old(self).max_range(),
            final(self).name() == old(self).name(),
            final(self).source() == old(self).source(),
    ;

    /// Closes the bracket at `sample`.
    fn stop_measuring(&mut self, sample: Sample)
        ensures
            final(self).energy_end() == sample.energy_uj,
            final(self).timer_end() == Some(sample.at_ns),
            final(self).energy_start() == old(self).energy_start(),
            final(self).timer_start() == old(self).timer_start(),
            final(self).max_range() == old(self).max_range(),
            final(self).name() == old(self).name(),
            final(self).source() == old(self).source(),
    ;

    /// The energy in microjoules spent within the bracket. A counter below
    /// its start value wrapped around, so the start lies within the range.
    fn get_measured_uj(&self) -> (r: u128)
        requires
            self.energy_end() < self.energy_start() ==> self.energy_start() <= self.max_range(),
        ensures
            r == bracket_energy(self.energy_start(), self.energy_end(), self.max_range()),
    ;

    /// Whether the readings can be accounted for: a counter below its start
    /// value must have started within its range.
    fn reading_in_range(&self) -> (r: bool)
        ensures
            r == (self.energy_end() < self.energy_start() ==> self.energy_start()
                <= self.max_range()),
    ;

    /// Whole microseconds between start and stop; zero if either is missing.
    fn get_elapsed_time_us(&self) -> (r: u128)
        ensures
            r == elapsed_ns(self.timer_start(), self.timer_end()) / 1000,
    ;

    /// The time between start and stop; zero if either is missing.
    fn get_duration(&self) -> (r: Duration)
        ensures
            r == duration_from_ns(elapsed_ns(self.timer_start(), self.timer_end())),
    ;
}

/// The state of a bracket: the instants and the counter readings at its
/// start and stop, and the counter's range.
#[derive(Clone, Debug)]
pub struct Bracket {
    timer_start_position: Option<u64>,
    timer_end_position: Option<u64>,
    energy_start_position: u128,
    energy_end_position: u128,
    energy_max_range: u128,
}

impl Bracket {
    /// The counter reading at the start.
    pub closed spec fn start_uj(&self) -> u128 {
        self.energy_start_position
    }

    /// The counter reading at the stop.
    pub closed spec fn end_uj(&self) -> u128 {
        self.energy_end_position
    }

    /// The value at which the counter wraps around.
    pub closed spec fn range_uj(&self) -> u128 {
        self.energy_max_range
    }

    /// The instant of the start, once there was one.
    pub closed spec fn start_at(&self) -> Option<u64> {
        self.timer_start_position
    }

    /// The instant of the stop, once there was one.
    pub closed spec fn end_at(&self) -> Option<u64> {
        self.timer_end_position
    }

    /// A bracket that was neither started nor stopped, on a counter that
    /// wraps around at `max_range`.
    pub fn new(max_range: u128) -> (r: Bracket)
        ensures
            r.start_uj() == 0,
            r.end_uj() == 0,
            r.range_uj() == max_range,
            r.start_at() == None::<u64>,
            r.end_at() == None::<u64>,
    {
        Bracket {
            timer_start_position: None,
            timer_end_position: None,
            energy_start_position: 0,
            energy_end_position: 0,
            energy_max_range: max_range,
        }
    }

    /// Opens the bracket at `sample`.
    pub fn start(&mut self, sample: Sample)
        ensures
            final(self).start_uj() == sample.energy_uj,
            final(self).start_at() == Some(sample.at_ns),
            final(self).end_uj() == old(self).end_uj(),
            final(self).end_at() == old(self).end_at(),
            final(self).range_uj() == old(self).range_uj(),
    {
        self.energy_start_position = sample.energy_uj;
        self.timer_start_position = Some(sample.at_ns);
    }

    /// Closes the bracket at `sample`.
    pub fn stop(&mut self, sample: Sample)
        ensures
            final(self).end_uj() == sample.energy_uj,
            final(self).end_at() == Some(sample.at_ns),
            final(self).start_uj() == old(self).start_uj(),
            final(self).start_at() == old(self).start_at(),
            final(self).range_uj() == old(self).range_uj(),
    {
        self.energy_end_position = sample.energy_uj;
        self.timer_end_position = Some(sample.at_ns);
    }

    /// The energy spent within the bracket, across one wraparound.
    pub fn energy_uj(&self) -> (r: u128)
        requires
            self.end_uj() < self.start_uj() ==> self.start_uj() <= self.range_uj(),
        ensures
            r == bracket_energy(self.start_uj(), self.end_uj(), self.range_uj()),
    {
        if self.energy_end_position < self.energy_start_position {
            (self.energy_max_range - self.energy_start_position) + self.energy_end_position
        } else {
            self.energy_end_position - self.energy_start_position
        }
    }

    /// Whether the readings can be accounted for.
    pub fn in_range(&self) -> (r: bool)
        ensures
            r == (self.end_uj() < self.start_uj() ==> self.start_uj() <= self.range_uj()),
    {
        self.energy_end_position >= self.energy_start_position || self.energy_start_position
            <= self.energy_max_range
    }

    /// Nanoseconds between start and stop; zero if either is missing or
    /// the stop precedes the start.
    pub fn elapsed_ns(&self) -> (r: u64)
        ensures
            r == elapsed_ns(self.start_at(), self.end_at()),
    {
        match (self.timer_start_position, self.timer_end_position) {
            (Some(s), Some(e)) => if s <= e {
                e - s
            } else {
                0
            },
            _ => 0,
        }
    }

    /// Whole microseconds between start and stop.
    pub fn elapsed_us(&self) -> (r: u128)
        ensures
            r == elapsed_ns(self.start_at(), self.end_at()) / 1000,
    {
        (self.elapsed_ns() / 1000) as u128
    }

    /// The time between start and stop.
    pub fn duration(&self) -> (r: Duration)
        ensures
            r == duration_from_ns(elapsed_ns(self.start_at(), self.end_at())),
    {
        let ns = self.elapsed_ns();
        new_duration(ns / 1_000_000_000, (ns % 1_000_000_000) as u32)
    }
}

/// What was read at a counter's location when acquiring a sensor there;
/// `None` for a file that could not be read.
#[derive(Clone, Debug)]
pub struct CounterProbe {
    /// The availability flag.
    pub enabled: Option<String>,
    /// The current counter value.
    pub energy: Option<String>,
    /// The counter's name, with its line terminator.
    pub name: Option<String>,
    /// The counter's maximum range.
    pub max_range: Option<String>,
}

/// Why a sensor could not be acquired.
#[derive(Clone, Debug, PartialEq, Eq)]
pub enum SensorError {
    /// Nothing could be read at this location.
    SensorUnavailable(String),
    /// The counter value at this location could not be read.
    PermissionDenied(String),
}

/// The message of `SensorUnavailable`.
pub open spec fn unavailable_message(location: Seq<char>) -> Seq<char> {
    "The location `"@ + location + "` is unreachable"@
}

/// The message of `PermissionDenied`.
pub open spec fn permission_message(location: Seq<char>) -> Seq<char> {
    "Insufficient permissions to read from "@ + location
        + "/energy_uj. You might want to retry as root."@
}

impl SensorError {
    /// The text of `message`.
    pub open spec fn message_view(&self) -> Seq<char> {
        match self {
            SensorError::SensorUnavailable(l) => unavailable_message(l@),
            SensorError::PermissionDenied(l) => permission_message(l@),
        }
    }

    /// A sentence that explains the error to a person.
    pub fn message(&self) -> (r: String)
        ensures
            r@ == self.message_view(),
    {
        match self {
            SensorError::SensorUnavailable(l) => {
                let mut s = String::from_str("The location `");
                s.append(l.as_str());
                s.append("` is unreachable");
                s
            },
            SensorError::PermissionDenied(l) => {
                let mut s = String::from_str("Insufficient permissions to read from ");
                s.append(l.as_str());
                s.append("/energy_uj. You might want to retry as root.");
                s
            },
        }
    }
}

/// A name as read from its file: the last character, the line terminator,
/// removed.
pub open spec fn trimmed_name(s: Seq<char>) -> Seq<char> {
    if s.len() == 0 {
        s
    } else {
        s.drop_last()
    }
}

/// A sensor on a RAPL energy counter, found at a directory that holds the
/// files `enabled`, `energy_uj`, `name` and `max_energy_range_uj`.
#[derive(Debug)]
pub struct RAPLSensor {
    location: String,
    name: String,
    bracket: Bracket,
}

impl RAPLSensor {
    /// The directory of the counter's files.
    pub open spec fn location_view(&self) -> Seq<char> {
        self.source()
    }

    /// Acquires the sensor at `location` from what was read there. Fails with
    /// `SensorUnavailable` when the availability flag, the name or the range
    /// could not be read, and with `PermissionDenied` when the counter value
    /// could not be read.
    pub fn new(location: String, probe: CounterProbe) -> (r: Result<RAPLSensor, SensorError>)
        ensures
            probe.enabled is None ==> r == Err::<RAPLSensor, SensorError>(
                SensorError::SensorUnavailable(location),
            ),
            probe.enabled is Some && probe.energy is None ==> r == Err::<RAPLSensor, SensorError>(
                SensorError::PermissionDenied(location),
            ),
            probe.enabled is Some && probe.energy is Some && (probe.name is None
                || probe.max_range is None) ==> r == Err::<RAPLSensor, SensorError>(
                SensorError::SensorUnavailable(location),
            ),
            probe.enabled is Some && probe.energy is Some && probe.name is Some
                && probe.max_range is Some ==> (r matches Ok(s) && {
                &&& s.location_view() == location@
                &&& s.name() == trimmed_name(probe.name->Some_0@)
                &&& s.max_range() == counter_reading(probe.max_range->Some_0@)
                &&& s.energy_start() == 0 && s.energy_end() == 0
                &&& s.timer_start() == None::<u64> && s.timer_end() == None::<u64>
            }),
    {
        match (&probe.enabled, &probe.energy, &probe.name, &probe.max_range) {
            (None, _, _, _) => Err(SensorError::SensorUnavailable(location)),
            (Some(_), None, _, _) => Err(SensorError::PermissionDenied(location)),
            (Some(_), Some(_), Some(name_text), Some(range_text)) => {
                let len = name_text.unicode_len();
                let name = if len == 0 {
                    String::from_str(name_text.as_str())
                } else {
                    String::from_str(name_text.as_str().substring_char(0, len - 1))
                };
                proof {
                    assert(name_text@.drop_last() =~= name_text@.subrange(0, len - 1));
                }
                Ok(RAPLSensor {
                    location,
                    name,
                    bracket: Bracket::new(parse_counter(range_text.as_str())),
                })
            },
            // the name or the range could not be read
            _ => Err(SensorError::SensorUnavailable(location)),
        }
    }

    /// The directory of the counter's files.
    pub fn location(&self) -> (r: &str)
        ensures
            r@ == self.location_view(),
    {
        self.location.as_str()
    }

    /// Reads the text of a counter file: the number it holds when it starts
    /// with one or more digits and a line terminator, 0 otherwise.
    pub fn convert_read_string_to_u128(input_string: String) -> (r: u128)
        ensures
            r == counter_reading(input_string@),
    {
        parse_counter(input_string.as_str())
    }

    /// The reading of the counter file text `text` taken at instant `at_ns`.
    pub fn sample(text: &str, at_ns: u64) -> (r: Sample)
        ensures
            r.energy_uj == counter_reading(text@),
            r.at_ns == at_ns,
    {
        Sample { energy_uj: parse_counter(text), at_ns }
    }
}

impl Sensor for RAPLSensor {
    closed spec fn energy_start(&self) -> u128 {
        self.bracket.start_uj()
    }

    closed spec fn energy_end(&self) -> u128 {
        self.bracket.end_uj()
    }

    closed spec fn max_range(&self) -> u128 {
        self.bracket.range_uj()
    }

    closed spec fn timer_start(&self) -> Option<u64> {
        self.bracket.start_at()
    }

    closed spec fn timer_end(&self) -> Option<u64> {
        self.bracket.end_at()
    }

    closed spec fn name(&self) -> Seq<char> {
        self.name@
    }

    closed spec fn source(&self) -> Seq<char> {
        self.location@
    }

    fn get_name(&self) -> (r: String) {
        self.name.clone()
    }

    fn start_measuring(&mut self, sample: Sample) {
        self.bracket.start(sample);
    }

    fn stop_measuring(&mut self, sample: Sample) {
        self.bracket.stop(sample);
    }

    fn get_measured_uj(&self) -> (r: u128) {
        self.bracket.energy_uj()
    }

    fn reading_in_range(&self) -> (r: bool) {
        self.bracket.in_range()
    }

    fn get_elapsed_time_us(&self) -> (r: u128) {
        self.bracket.elapsed_us()
    }

    fn get_duration(&self) -> (r: Duration) {
        self.bracket.duration()
    }
}

/// A sensor on the energy counter of a GPU, which counts millijoules and
/// does not wrap around.
#[derive(Debug)]
pub struct NvmlSensor {
    name: String,
    bracket: Bracket,
}

impl NvmlSensor {
    /// A sensor on the device called `name`.
    pub fn new(name: String) -> (r: NvmlSensor)
        ensures
            r.name() == name@,
            r.source() == name@,
            r.max_range() == 0,
            r.energy_start() == 0,
            r.energy_end() == 0,
            r.timer_start() == None::<u64>,
            r.timer_end() == None::<u64>,
    {
        NvmlSensor { name, bracket: Bracket::new(0) }
    }

    /// The reading of `millijoules` taken at instant `at_ns`, in microjoules.
    pub fn sample(millijoules: u64, at_ns: u64) -> (r: Sample)
        ensures
            r.energy_uj == millijoules * 1000,
            r.at_ns == at_ns,
    {
        Sample { energy_uj: millijoules as u128 * 1000, at_ns }
    }
}

impl Sensor for NvmlSensor {
    closed spec fn energy_start(&self) -> u128 {
        self.bracket.start_uj()
    }

    closed spec fn energy_end(&self) -> u128 {
        self.bracket.end_uj()
    }

    closed spec fn max_range(&self) -> u128 {
        self.bracket.range_uj()
    }

    closed spec fn timer_start(&self) -> Option<u64> {
        self.bracket.start_at()
    }

    closed spec fn timer_end(&self) -> Option<u64> {
        self.bracket.end_at()
    }

    closed spec fn name(&self) -> Seq<char> {
        self.name@
    }

    closed spec fn source(&self) -> Seq<char> {
        self.name@
    }

    fn get_name(&self) -> (r: String) {
        self.name.clone()
    }

    fn start_measuring(&mut self, sample: Sample) {
        self.bracket.start(sample);
    }

    fn stop_measuring(&mut self, sample: Sample) {
        self.bracket.stop(sample);
    }

    fn get_measured_uj(&self) -> (r: u128) {
        self.bracket.energy_uj()
    }

    fn reading_in_range(&self) -> (r: bool) {
        self.bracket.in_range()
    }

    fn get_elapsed_time_us(&self) -> (r: u128) {
        self.bracket.elapsed_us()
    }

    fn get_duration(&self) -> (r: Duration) {
        self.bracket.duration()
    }
}

} // verus!
