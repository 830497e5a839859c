//! A Mamdani fuzzy controller that turns a temperature and a relative
//! humidity into a fan speed.
//!
//! All quantities are fixed-point integers. Crisp values are counted in
//! thousandths of their unit (millidegrees Celsius, thousandths of a percent),
//! membership degrees in steps of `1 / DEGREE_ONE`.

pub mod controller;
pub mod defuzzification;
pub mod display;
pub mod inference;
pub mod membership;
pub mod rules;
pub mod session;
pub mod variables;

pub use controller::FuzzyController;
pub use defuzzification::{defuzzify, FAN_SPEED_MAX, RESOLUTION};
pub use display::{fan_speed_band, humidity_band, membership_percent, temperature_band};
pub use inference::apply_rules;
pub use membership::{trapezoidal, triangular, DEGREE_ONE};
pub use rules::{create_rules, FuzzyRule};
pub use session::{Action, App, InputMode, Key, Message, Reading};
pub use variables::{
    fan_speed_sets, fuzzify_humidity, fuzzify_temperature, FanSpeedLabel, FanSpeedSet, FuzzySet,
    HumidityLabel, TemperatureLabel,
};
