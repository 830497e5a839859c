//! The interactive session around the controller: the current readings, the
//! line being typed, the status message and the latest results.
//!
//! The session decides; it does no input or output. Each key press is handed
//! to [`App::handle_key`], which answers with what is to be done next.

use crate::controller::{spec_compute, FuzzyController};
use vstd::prelude::*;

verus! {

/// Lower end of the temperature range.
pub const TEMPERATURE_MIN: i32 = 0;

/// Upper end of the temperature range.
pub const TEMPERATURE_MAX: i32 = 50_000;

/// Lower end of the humidity range.
pub const HUMIDITY_MIN: i32 = 0;

/// Upper end of the humidity range.
pub const HUMIDITY_MAX: i32 = 100_000;

/// Number of results that the session remembers.
pub const HISTORY_LIMIT: usize = 10;

/// What the keys mean at the moment.
#[derive(Clone, Copy, Debug, PartialEq, Eq, Structural)]
pub enum InputMode {
    /// Keys are commands.
    Menu,
    /// Keys edit a temperature.
    Temperature,
    /// Keys edit a humidity.
    Humidity,
}

/// A key press.
#[derive(Clone, Copy, Debug, PartialEq, Eq, Structural)]
pub enum Key {
    Char(char),
    Enter,
    Backspace,
    Esc,
    Other,
}

/// What the status line says.
#[derive(Clone, Copy, Debug, PartialEq, Eq, Structural)]
pub enum Message {
    Welcome,
    GeneratedRandom,
    EnterTemperature,
    EnterHumidity,
    /// The temperature was set, to this value.
    TemperatureSet(i32),
    /// The humidity was set, to this value.
    HumiditySet(i32),
    InvalidInput,
    Cancelled,
}

/// What is to be done after a key press.
#[derive(Clone, Copy, Debug, PartialEq, Eq, Structural)]
pub enum Action {
    /// Nothing: wait for the next key.
    Wait,
    /// End the session.
    Quit,
    /// Draw a random temperature and humidity and hand them to
    /// [`App::generate_random`].
    DrawRandom,
    /// Read the typed line as a number and hand the outcome to
    /// [`App::submit_input`].
    ParseInput,
}

/// A temperature and a humidity with the fan speed computed for them.
#[derive(Clone, Copy, Debug, PartialEq, Eq, Structural)]
pub struct Reading {
    pub temperature: i32,
    pub humidity: i32,
    pub fan_speed: i32,
}

/// The state of a session.
pub struct App {
    pub controller: FuzzyController,
    pub temperature: i32,
    pub humidity: i32,
    pub fan_speed: i32,
    pub input_mode: InputMode,
    /// The line typed so far, one `char` for each key.
    pub input_buffer: Vec<char>,
    pub message: Message,
    pub history: Vec<Reading>,
}

/// The state of a session as a value: everything but the controller, which
/// never changes.
pub struct AppState {
    pub temperature: i32,
    pub humidity: i32,
    pub fan_speed: i32,
    pub input_mode: InputMode,
    pub input_buffer: Seq<char>,
    pub message: Message,
    pub history: Seq<Reading>,
}

impl View for App {
    type V = AppState;

    open spec fn view(&self) -> AppState {
        AppState {
            temperature: self.temperature,
            humidity: self.humidity,
            fan_speed: self.fan_speed,
            input_mode: self.input_mode,
            input_buffer: self.input_buffer@,
            message: self.message,
            history: self.history@,
        }
    }
}

/// `value` brought into the range from `low` to `high`.
pub open spec fn spec_clamp(value: int, low: int, high: int) -> int {
    if value < low {
        low
    } else if value > high {
        high
    } else {
        value
    }
}

/// The history after one more result: the result comes last, and the oldest
/// entry leaves where that makes more than `HISTORY_LIMIT` entries.
pub open spec fn history_with(history: Seq<Reading>, reading: Reading) -> Seq<Reading> {
    let longer = history.push(reading);
    if longer.len() > HISTORY_LIMIT {
        longer.drop_first()
    } else {
        longer
    }
}

impl AppState {
    /// The state at the start of a session.
    pub open spec fn initial() -> AppState {
        AppState {
            temperature: 25_000,
            humidity: 50_000,
            fan_speed: 0,
            input_mode: InputMode::Menu,
            input_buffer: Seq::empty(),
            message: Message::Welcome,
            history: Seq::empty(),
        }
    }

    /// The fan speed is computed for the current readings and the result
    /// joins the history.
    pub open spec fn computed(self) -> AppState {
        let fan_speed: i32 = spec_compute(self.temperature as int, self.humidity as int) as i32;
        AppState {
            fan_speed,
            history: history_with(
                self.history,
                Reading { temperature: self.temperature, humidity: self.humidity, fan_speed },
            ),
            ..self
        }
    }

    /// Random readings were drawn.
    pub open spec fn randomized(self, temperature: i32, humidity: i32) -> AppState {
        AppState {
            message: Message::GeneratedRandom,
            ..(AppState { temperature, humidity, ..self }).computed()
        }
    }

    /// The state goes back to the menu with an empty line.
    pub open spec fn back_to_menu(self, message: Message) -> AppState {
        AppState { input_mode: InputMode::Menu, input_buffer: Seq::empty(), message, ..self }
    }

    /// The typed line was read as a number, or could not be.
    pub open spec fn submitted(self, parsed: Option<i32>) -> AppState {
        match (self.input_mode, parsed) {
            (InputMode::Menu, _) => self,
            (_, None) => self.back_to_menu(Message::InvalidInput),
            (InputMode::Temperature, Some(value)) => {
                let temperature: i32 = spec_clamp(
                    value as int,
                    TEMPERATURE_MIN as int,
                    TEMPERATURE_MAX as int,
                ) as i32;
                (AppState { temperature, ..self }).computed().back_to_menu(
                    Message::TemperatureSet(temperature),
                )
            },
            (InputMode::Humidity, Some(value)) => {
                let humidity: i32 = spec_clamp(
                    value as int,
                    HUMIDITY_MIN as int,
                    HUMIDITY_MAX as int,
                ) as i32;
                (AppState { humidity, ..self }).computed().back_to_menu(
                    Message::HumiditySet(humidity),
                )
            },
        }
    }

    /// The state after a key press.
    pub open spec fn after_key(self, key: Key) -> AppState {
        match self.input_mode {
            InputMode::Menu => match key {
                Key::Char('t') => AppState {
                    input_mode: InputMode::Temperature,
                    input_buffer: Seq::empty(),
                    message: Message::EnterTemperature,
                    ..self
                },
                Key::Char('h') => AppState {
                    input_mode: InputMode::Humidity,
                    input_buffer: Seq::empty(),
                    message: Message::EnterHumidity,
                    ..self
                },
                _ => self,
            },
            _ => match key {
                Key::Char(c) => AppState { input_buffer: self.input_buffer.push(c), ..self },
                Key::Backspace => if self.input_buffer.len() > 0 {
                    AppState { input_buffer: self.input_buffer.drop_last(), ..self }
                } else {
                    self
                },
                Key::Esc => self.back_to_menu(Message::Cancelled),
                _ => self,
            },
        }
    }
}

/// What a key press asks for in a mode.
pub open spec fn action_of(input_mode: InputMode, key: Key) -> Action {
    match (input_mode, key) {
        (InputMode::Menu, Key::Char('q')) => Action::Quit,
        (InputMode::Menu, Key::Char('r')) => Action::DrawRandom,
        (InputMode::Menu, _) => Action::Wait,
        (_, Key::Enter) => Action::ParseInput,
        (_, _) => Action::Wait,
    }
}

/// A history within the limit stays within the limit.
pub proof fn lemma_history_stays_short(history: Seq<Reading>, reading: Reading)
    requires
        history.len() <= HISTORY_LIMIT,
    ensures
        history_with(history, reading).len() <= HISTORY_LIMIT,
        history_with(history, reading).last() == reading,
{
}

fn clamp(value: i32, low: i32, high: i32) -> (clamped: i32)
    ensures
        clamped == spec_clamp(value as int, low as int, high as int),
{
    if value < low {
        low
    } else if value > high {
        high
    } else {
        value
    }
}

impl App {
    /// A session at its start: 25 degrees, 50 percent, nothing computed yet.
    pub fn new() -> (app: App)
        ensures
            app@ == AppState::initial(),
    {
        App {
            controller: FuzzyController::new(),
            temperature: 25_000,
            humidity: 50_000,
            fan_speed: 0,
            input_mode: InputMode::Menu,
            input_buffer: Vec::new(),
            message: Message::Welcome,
            history: Vec::new(),
        }
    }

    /// Computes the fan speed for the current readings and adds the result
    /// to the history, which drops its oldest entry where it grows beyond
    /// `HISTORY_LIMIT`.
    pub fn compute_fan_speed(&mut self)
        ensures
            final(self)@ == old(self)@.computed(),
    {
        self.fan_speed = self.controller.compute(self.temperature, self.humidity);
        self.history.push(
            Reading {
                temperature: self.temperature,
                humidity: self.humidity,
                fan_speed: self.fan_speed,
            },
        );
        if self.history.len() > HISTORY_LIMIT {
            self.history.remove(0);
        }
        assert(self.history@ =~= old(self)@.computed().history);
    }

    /// Takes over a temperature and a humidity that were drawn at random and
    /// computes the fan speed for them.
    pub fn generate_random(&mut self, temperature: i32, humidity: i32)
        ensures
            final(self)@ == old(self)@.randomized(temperature, humidity),
    {
        self.temperature = temperature;
        self.humidity = humidity;
        self.compute_fan_speed();
        self.message = Message::GeneratedRandom;
    }

    /// Takes over what the typed line reads as: `None` where it is no
    /// number. A temperature or a humidity is brought into its range, the
    /// fan speed is computed for it, and the session returns to the menu.
    /// In the menu there is no line to read and nothing happens.
    pub fn submit_input(&mut self, parsed: Option<i32>)
        ensures
            final(self)@ == old(self)@.submitted(parsed),
    {
        match self.input_mode {
            InputMode::Menu => {
                return ;
            },
            InputMode::Temperature => {
                match parsed {
                    Some(val) => {
                        self.temperature = clamp(val, TEMPERATURE_MIN, TEMPERATURE_MAX);
                        self.compute_fan_speed();
                        self.message = Message::TemperatureSet(self.temperature);
                    },
                    None => {
                        self.message = Message::InvalidInput;
                    },
                }
            },
            InputMode::Humidity => {
                match parsed {
                    Some(val) => {
                        self.humidity = clamp(val, HUMIDITY_MIN, HUMIDITY_MAX);
                        self.compute_fan_speed();
                        self.message = Message::HumiditySet(self.humidity);
                    },
                    None => {
                        self.message = Message::InvalidInput;
                    },
                }
            },
        }
        self.input_mode = InputMode::Menu;
        self.input_buffer.clear();
    }

    /// Handles a key press and says what is to be done next. In the menu,
    /// `q` quits, `r` asks for random readings, `t` and `h` start a line for
    /// the temperature or the humidity. While a line is typed, characters
    /// join it, backspace takes the last one away, escape gives up and enter
    /// asks for the line to be read.
    pub fn handle_key(&mut self, key: Key) -> (action: Action)
        ensures
            final(self)@ == old(self)@.after_key(key),
            action == action_of(old(self).input_mode, key),
    {
        match self.input_mode {
            InputMode::Menu => match key {
                Key::Char('q') => Action::Quit,
                Key::Char('r') => Action::DrawRandom,
                Key::Char('t') => {
                    self.input_mode = InputMode::Temperature;
                    self.input_buffer.clear();
                    self.message = Message::EnterTemperature;
                    Action::Wait
                },
                Key::Char('h') => {
                    self.input_mode = InputMode::Humidity;
                    self.input_buffer.clear();
                    self.message = Message::EnterHumidity;
                    Action::Wait
                },
                _ => Action::Wait,
            },
            _ => match key {
                Key::Enter => Action::ParseInput,
                Key::Char(c) => {
                    self.input_buffer.push(c);
                    Action::Wait
                },
                Key::Backspace => {
                    self.input_buffer.pop();
                    assert(self.input_buffer@ =~= old(self)@.after_key(key).input_buffer);
                    Action::Wait
                },
                Key::Esc => {
                    self.input_mode = InputMode::Menu;
                    self.message = Message::Cancelled;
                    self.input_buffer.clear();
                    Action::Wait
                },
                _ => Action::Wait,
            },
        }
    }
}

} // verus!
