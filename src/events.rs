use vstd::prelude::*;

verus! {

/// The kinds of event in a song's event list.
#[derive(Debug, Clone, Copy, PartialEq, Eq, Structural)]
pub enum EventType {
    Null,
    On,
    Key,
    PanVolume,
    Velocity,
    Volume,
    Portament,
    BeatClock,
    BeatTempo,
    BeatNum,
    Repeat,
    Last,
    VoiceNo,
    GroupNo,
    Tuning,
    PanTime,
}

/// A selected stretch of the song, as measure, beat and clock bounds.
#[derive(Debug, Clone, Copy, PartialEq, Eq, Structural)]
pub struct Selection {
    pub meas_min: i32,
    pub meas_max: i32,
    pub beat_min: i32,
    pub beat_max: i32,
    pub clock_min: i32,
    pub clock_max: i32,
}

/// The clock position of `clock` ticks into beat `beat` of measure `meas`.
pub open spec fn clock_pos(beat_num: int, beat_clock: int, meas: int, beat: int, clock: int) -> int {
    beat_num * beat_clock * meas + beat_clock * beat + clock
}

/// The clock position of `clock` ticks into beat `beat` of measure `meas`, for a song of
/// `beat_num` beats to the measure and `beat_clock` ticks to the beat.
pub fn calc_clock_pos(beat_num: i32, beat_clock: i32, meas: i32, beat: i32, clock: i32) -> (r: i32)
    requires
        i32::MIN <= beat_num * beat_clock <= i32::MAX,
        i32::MIN <= beat_num * beat_clock * meas <= i32::MAX,
        i32::MIN <= beat_clock * beat <= i32::MAX,
        i32::MIN <= beat_num * beat_clock * meas + beat_clock * beat <= i32::MAX,
        i32::MIN <= clock_pos(beat_num as int, beat_clock as int, meas as int, beat as int, clock as int) <= i32::MAX,
    ensures
        r as int == clock_pos(beat_num as int, beat_clock as int, meas as int, beat as int, clock as int),
{
    let per_meas = beat_num * beat_clock;
    let meas_pos = per_meas * meas;
    let beat_pos = beat_clock * beat;
    meas_pos + beat_pos + clock
}

/// The bounds of a clock range given by two ends in either order, lower first.
pub fn clock_range(a: i32, b: i32) -> (r: (i32, i32))
    ensures
        r.0 <= r.1,
        (r.0 == a && r.1 == b) || (r.0 == b && r.1 == a),
{
    if a <= b {
        (a, b)
    } else {
        (b, a)
    }
}

/// Whether a volume multiply over `[start, end)` rescales an event: it must be a volume
/// event of a highlighted unit at or after `start`, and before `end` unless `end` is -1,
/// which leaves the range open.
pub fn rescales_event(kind: EventType, clock: i32, start: i32, end: i32, unit_highlighted: bool) -> (r: bool)
    ensures
        r <==> kind == EventType::Volume && clock >= start && (end == -1 || clock < end) && unit_highlighted,
{
    kind == EventType::Volume && clock >= start && (end == -1 || clock < end) && unit_highlighted
}

/// The largest volume an event may hold.
pub const MAX_VOLUME: i32 = 0x80;

/// `v` brought into the range of volumes, `0` to `MAX_VOLUME`.
pub fn clamp_volume(v: i32) -> (r: i32)
    ensures
        0 <= r <= MAX_VOLUME,
        0 <= v <= MAX_VOLUME ==> r == v,
        v < 0 ==> r == 0,
        v > MAX_VOLUME ==> r == MAX_VOLUME,
{
    if v < 0 {
        0
    } else if v > MAX_VOLUME {
        MAX_VOLUME
    } else {
        v
    }
}

} // verus!
