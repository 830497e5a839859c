//! What a display of the session needs besides the state itself: the band a
//! crisp value is shown under, bar lengths, and the latest results.

use crate::membership::DEGREE_ONE;
use crate::session::{App, Reading};
use crate::variables::{FanSpeedLabel, HumidityLabel, TemperatureLabel};
use vstd::prelude::*;

verus! {

/// The band of a temperature: Cold below 20 degrees, Mild below 30, Hot from
/// there on.
pub open spec fn spec_temperature_band(temperature: int) -> TemperatureLabel {
    if temperature < 20_000 {
        TemperatureLabel::Cold
    } else if temperature < 30_000 {
        TemperatureLabel::Mild
    } else {
        TemperatureLabel::Hot
    }
}

/// The band of a humidity: Low below 40 percent, Medium below 70, High from
/// there on.
pub open spec fn spec_humidity_band(humidity: int) -> HumidityLabel {
    if humidity < 40_000 {
        HumidityLabel::Low
    } else if humidity < 70_000 {
        HumidityLabel::Medium
    } else {
        HumidityLabel::High
    }
}

/// The band of a fan speed: Off below 15 percent, Low below 40, Medium below
/// 65, High from there on.
pub open spec fn spec_fan_speed_band(fan_speed: int) -> FanSpeedLabel {
    if fan_speed < 15_000 {
        FanSpeedLabel::Off
    } else if fan_speed < 40_000 {
        FanSpeedLabel::Low
    } else if fan_speed < 65_000 {
        FanSpeedLabel::Medium
    } else {
        FanSpeedLabel::High
    }
}

/// A degree in whole percents of full membership, rounded down.
pub open spec fn spec_membership_percent(membership: int) -> int {
    membership * 100 / DEGREE_ONE as int
}

/// The last `count` entries of a history, the latest first; all of them
/// where there are fewer.
pub open spec fn spec_recent(history: Seq<Reading>, count: int) -> Seq<Reading> {
    let shown: int = if count < history.len() {
        count
    } else {
        history.len() as int
    };
    Seq::new(shown as nat, |i: int| history[history.len() - 1 - i])
}

/// The band under which a temperature is shown.
pub fn temperature_band(temperature: i32) -> (band: TemperatureLabel)
    ensures
        band == spec_temperature_band(temperature as int),
{
    if temperature < 20_000 {
        TemperatureLabel::Cold
    } else if temperature < 30_000 {
        TemperatureLabel::Mild
    } else {
        TemperatureLabel::Hot
    }
}

/// The band under which a humidity is shown.
pub fn humidity_band(humidity: i32) -> (band: HumidityLabel)
    ensures
        band == spec_humidity_band(humidity as int),
{
    if humidity < 40_000 {
        HumidityLabel::Low
    } else if humidity < 70_000 {
        HumidityLabel::Medium
    } else {
        HumidityLabel::High
    }
}

/// The band under which a fan speed is shown.
pub fn fan_speed_band(fan_speed: i32) -> (band: FanSpeedLabel)
    ensures
        band == spec_fan_speed_band(fan_speed as int),
{
    if fan_speed < 15_000 {
        FanSpeedLabel::Off
    } else if fan_speed < 40_000 {
        FanSpeedLabel::Low
    } else if fan_speed < 65_000 {
        FanSpeedLabel::Medium
    } else {
        FanSpeedLabel::High
    }
}

/// The length of the bar for a degree: its whole percents of full
/// membership.
pub fn membership_percent(membership: u64) -> (percent: u64)
    ensures
        percent == spec_membership_percent(membership as int),
        membership <= DEGREE_ONE ==> percent <= 100,
{
    let scaled: u128 = membership as u128 * 100;
    let percent: u128 = scaled / DEGREE_ONE as u128;
    assert(percent == spec_membership_percent(membership as int));
    percent as u64
}

impl App {
    /// The latest results, the latest first, `count` of them at most.
    pub fn recent_history(&self, count: usize) -> (recent: Vec<Reading>)
        ensures
            recent@ == spec_recent(self.history@, count as int),
    {
        let mut recent: Vec<Reading> = Vec::new();
        let mut left: usize = self.history.len();
        while left > 0 && recent.len() < count
            invariant
                left <= self.history@.len(),
                recent@.len() == self.history@.len() - left,
                recent@.len() <= count,
                forall|i: int|
                    0 <= i < recent@.len() ==> recent@[i] == self.history@[self.history@.len() - 1
                        - i],
            decreases left,
        {
            left -= 1;
            recent.push(self.history[left]);
        }
        assert(recent@ =~= spec_recent(self.history@, count as int));
        recent
    }
}

} // verus!
