use vstd::prelude::*;
use crate::model::Measurement;

verus! {

/// How far, in hundredths of a degree, the newest temperature must lie above
/// an earlier one for the window to count as open.
pub const OPEN_WINDOW_DELTA: i64 = 200;

/// The newest reading `latest` lies at least the threshold above `temperature`.
pub open spec fn delta_signals_open(latest: int, temperature: int) -> bool {
    latest - temperature >= OPEN_WINDOW_DELTA as int
}

/// The entry at index `i` (not the newest) of a newest-first history signals
/// an open window against the newest entry.
pub open spec fn opens_at(ms: Seq<Measurement>, i: int) -> bool {
    1 <= i < ms.len() && delta_signals_open(ms[0].temperature as int, ms[i].temperature as int)
}

/// Some entry of the history signals an open window.
pub open spec fn window_open(ms: Seq<Measurement>) -> bool {
    exists|i: int| opens_at(ms, i)
}

/// `i` is the first entry, scanning from the newest on, that signals an open
/// window: the scan stops there.
pub open spec fn first_opening(ms: Seq<Measurement>, i: int) -> bool {
    opens_at(ms, i) && forall|j: int| 1 <= j < i ==> !opens_at(ms, j)
}

/// Compares the newest temperature with an earlier one.
pub fn is_window_open(latest_temperature: i32, temperature: i32) -> (r: bool)
    ensures
        r == delta_signals_open(latest_temperature as int, temperature as int),
{
    (latest_temperature as i64) - (temperature as i64) >= OPEN_WINDOW_DELTA
}

/// Scans a newest-first history and returns the index of the entry that
/// triggered the open-window decision, or `None` when the window is judged
/// closed (always so for fewer than two entries).
pub fn find_open_window(measurements: &Vec<Measurement>) -> (r: Option<usize>)
    ensures
        r is None <==> !window_open(measurements@),
        r matches Some(i) ==> first_opening(measurements@, i as int),
        measurements@.len() < 2 ==> r is None,
{
    if measurements.len() < 2 {
        return None;
    }
    let latest = measurements[0].temperature;
    let mut i: usize = 1;
    while i < measurements.len()
        invariant
            1 <= i <= measurements@.len(),
            latest == measurements@[0].temperature,
            forall|j: int| 1 <= j < i ==> !opens_at(measurements@, j),
        decreases measurements@.len() - i,
    {
        if is_window_open(latest, measurements[i].temperature) {
            assert(opens_at(measurements@, i as int));
            return Some(i);
        }
        i = i + 1;
    }
    None
}

} // verus!
