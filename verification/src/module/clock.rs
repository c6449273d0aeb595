//! The clock module: keeps the current wall-clock time and renders it in
//! one of a fixed set of display formats.

use vstd::prelude::*;

use crate::fmt::{
    spec_two_digits, spec_year, spec_year_two, two_digit_string, year_string, year_two_string,
};
use crate::module::{
    ModuleConfig, ModuleEvent, ModuleWidgetConfig, ModuleWidgetEvent, ModuleWidgetState,
    ModuleWidgetUpdateOutput,
};
use crate::time::{now_local, LocalTime};

verus! {

/// The display formats a clock widget can cycle through.
#[allow(non_camel_case_types)]
#[derive(Clone, Copy, Debug, PartialEq, Eq, Hash, Structural)]
pub enum ClockFormat {
    HH_MM,
    HH_MM_SS,
    DD_MM_YY_HH_MM,
    DD_MM_YYYY_HH_MM,
    DD_MM_YY_HH_MM_SS,
    DD_MM_YYYY_HH_MM_SS,
}

impl Default for ClockFormat {
    fn default() -> (r: Self)
        ensures
            r == ClockFormat::DD_MM_YYYY_HH_MM_SS,
    {
        ClockFormat::DD_MM_YYYY_HH_MM_SS
    }
}

impl ClockFormat {
    /// The format that follows this one in the cycling order.
    pub open spec fn spec_switch(self) -> ClockFormat {
        match self {
            ClockFormat::HH_MM => ClockFormat::HH_MM_SS,
            ClockFormat::HH_MM_SS => ClockFormat::DD_MM_YY_HH_MM,
            ClockFormat::DD_MM_YY_HH_MM => ClockFormat::DD_MM_YYYY_HH_MM,
            ClockFormat::DD_MM_YYYY_HH_MM => ClockFormat::DD_MM_YY_HH_MM_SS,
            ClockFormat::DD_MM_YY_HH_MM_SS => ClockFormat::DD_MM_YYYY_HH_MM_SS,
            ClockFormat::DD_MM_YYYY_HH_MM_SS => ClockFormat::HH_MM,
        }
    }

    /// Advance to the next format in the cycling order.
    pub fn switch(&mut self)
        ensures
            *final(self) == old(self).spec_switch(),
    {
        *self = match *self {
            ClockFormat::HH_MM => ClockFormat::HH_MM_SS,
            ClockFormat::HH_MM_SS => ClockFormat::DD_MM_YY_HH_MM,
            ClockFormat::DD_MM_YY_HH_MM => ClockFormat::DD_MM_YYYY_HH_MM,
            ClockFormat::DD_MM_YYYY_HH_MM => ClockFormat::DD_MM_YY_HH_MM_SS,
            ClockFormat::DD_MM_YY_HH_MM_SS => ClockFormat::DD_MM_YYYY_HH_MM_SS,
            ClockFormat::DD_MM_YYYY_HH_MM_SS => ClockFormat::HH_MM,
        };
    }

    /// The strftime-style pattern that describes this format.
    pub open spec fn spec_chrono_format(self) -> Seq<char> {
        match self {
            ClockFormat::HH_MM => "%H:%M"@,
            ClockFormat::HH_MM_SS => "%H:%M:%S"@,
            ClockFormat::DD_MM_YY_HH_MM => "%d/%m/%y %H:%M"@,
            ClockFormat::DD_MM_YYYY_HH_MM => "%d/%m/%Y %H:%M"@,
            ClockFormat::DD_MM_YY_HH_MM_SS => "%d/%m/%y %H:%M:%S"@,
            ClockFormat::DD_MM_YYYY_HH_MM_SS => "%d/%m/%Y %H:%M:%S"@,
        }
    }

    /// The strftime-style pattern that describes this format.
    pub fn chrono_format(&self) -> (r: &'static str)
        ensures
            r@ == self.spec_chrono_format(),
    {
        match self {
            ClockFormat::HH_MM => "%H:%M",
            ClockFormat::HH_MM_SS => "%H:%M:%S",
            ClockFormat::DD_MM_YY_HH_MM => "%d/%m/%y %H:%M",
            ClockFormat::DD_MM_YYYY_HH_MM => "%d/%m/%Y %H:%M",
            ClockFormat::DD_MM_YY_HH_MM_SS => "%d/%m/%y %H:%M:%S",
            ClockFormat::DD_MM_YYYY_HH_MM_SS => "%d/%m/%Y %H:%M:%S",
        }
    }
}

/// `HH:MM`, both fields zero-padded.
pub open spec fn spec_time_hm(t: LocalTime) -> Seq<char> {
    spec_two_digits(t.hour as nat) + seq![':'] + spec_two_digits(t.minute as nat)
}

/// `HH:MM:SS`, all fields zero-padded.
pub open spec fn spec_time_hms(t: LocalTime) -> Seq<char> {
    spec_time_hm(t) + seq![':'] + spec_two_digits(t.second as nat)
}

/// `DD/MM/YY`, with a two-digit year.
pub open spec fn spec_date_short(t: LocalTime) -> Seq<char> {
    spec_two_digits(t.day as nat) + seq!['/'] + spec_two_digits(t.month as nat) + seq!['/']
        + spec_year_two(t.year as int)
}

/// `DD/MM/YYYY`, with a full year.
pub open spec fn spec_date_long(t: LocalTime) -> Seq<char> {
    spec_two_digits(t.day as nat) + seq!['/'] + spec_two_digits(t.month as nat) + seq!['/']
        + spec_year(t.year as int)
}

/// The text a clock widget displays for instant `t` under `format`.
pub open spec fn spec_clock_text(format: ClockFormat, t: LocalTime) -> Seq<char> {
    match format {
        ClockFormat::HH_MM => spec_time_hm(t),
        ClockFormat::HH_MM_SS => spec_time_hms(t),
        ClockFormat::DD_MM_YY_HH_MM => spec_date_short(t) + seq![' '] + spec_time_hm(t),
        ClockFormat::DD_MM_YYYY_HH_MM => spec_date_long(t) + seq![' '] + spec_time_hm(t),
        ClockFormat::DD_MM_YY_HH_MM_SS => spec_date_short(t) + seq![' '] + spec_time_hms(t),
        ClockFormat::DD_MM_YYYY_HH_MM_SS => spec_date_long(t) + seq![' '] + spec_time_hms(t),
    }
}

/// `HH:MM` for instant `t`.
fn time_hm_string(t: LocalTime) -> (s: String)
    ensures
        s@ == spec_time_hm(t),
{
    proof {
        reveal_strlit(":");
    }
    let mut s = two_digit_string(t.hour);
    s.append(":");
    let m = two_digit_string(t.minute);
    s.append(m.as_str());
    proof {
        assert(s@ =~= spec_time_hm(t));
    }
    s
}

/// `HH:MM:SS` for instant `t`.
fn time_hms_string(t: LocalTime) -> (s: String)
    ensures
        s@ == spec_time_hms(t),
{
    proof {
        reveal_strlit(":");
    }
    let mut s = time_hm_string(t);
    s.append(":");
    let sec = two_digit_string(t.second);
    s.append(sec.as_str());
    proof {
        assert(s@ =~= spec_time_hms(t));
    }
    s
}

/// `DD/MM/YY` for instant `t`.
fn date_short_string(t: LocalTime) -> (s: String)
    ensures
        s@ == spec_date_short(t),
{
    proof {
        reveal_strlit("/");
    }
    let mut s = two_digit_string(t.day);
    s.append("/");
    let m = two_digit_string(t.month);
    s.append(m.as_str());
    s.append("/");
    let y = year_two_string(t.year);
    s.append(y.as_str());
    proof {
        assert(s@ =~= spec_date_short(t));
    }
    s
}

/// `DD/MM/YYYY` for instant `t`.
fn date_long_string(t: LocalTime) -> (s: String)
    ensures
        s@ == spec_date_long(t),
{
    proof {
        reveal_strlit("/");
    }
    let mut s = two_digit_string(t.day);
    s.append("/");
    let m = two_digit_string(t.month);
    s.append(m.as_str());
    s.append("/");
    let y = year_string(t.year);
    s.append(y.as_str());
    proof {
        assert(s@ =~= spec_date_long(t));
    }
    s
}

/// A date part and a time part joined by one space.
fn date_time_string(date: String, time_part: String) -> (s: String)
    ensures
        s@ == date@ + seq![' '] + time_part@,
{
    let ghost d0 = date@;
    proof {
        reveal_strlit(" ");
    }
    let mut s = date;
    s.append(" ");
    s.append(time_part.as_str());
    proof {
        assert(s@ =~= d0 + seq![' '] + time_part@);
    }
    s
}

/// The text a clock widget displays for instant `t` under `format`.
pub fn clock_text(format: ClockFormat, t: LocalTime) -> (s: String)
    ensures
        s@ == spec_clock_text(format, t),
{
    match format {
        ClockFormat::HH_MM => time_hm_string(t),
        ClockFormat::HH_MM_SS => time_hms_string(t),
        ClockFormat::DD_MM_YY_HH_MM => date_time_string(date_short_string(t), time_hm_string(t)),
        ClockFormat::DD_MM_YYYY_HH_MM => date_time_string(date_long_string(t), time_hm_string(t)),
        ClockFormat::DD_MM_YY_HH_MM_SS => date_time_string(
            date_short_string(t),
            time_hms_string(t),
        ),
        ClockFormat::DD_MM_YYYY_HH_MM_SS => date_time_string(
            date_long_string(t),
            time_hms_string(t),
        ),
    }
}

/// Module-level configuration for the clock; there is nothing to
/// configure at module level.
#[derive(Clone, Copy, Debug, PartialEq, Eq, Structural)]
pub struct ClockConfig;

impl Default for ClockConfig {
    fn default() -> (r: Self)
        ensures
            r == ClockConfig,
    {
        ClockConfig
    }
}

/// Module-level events for the clock.
#[derive(Clone, Copy, Debug, PartialEq, Eq, Structural)]
pub enum ClockEvent {
    UpdateTime,
}

/// A placed clock widget's configuration: its initial display format.
#[derive(Clone, Copy, Debug, PartialEq, Eq, Structural)]
pub struct ClockWidgetConfig {
    pub format: ClockFormat,
}

impl Default for ClockWidgetConfig {
    fn default() -> (r: Self)
        ensures
            r == (ClockWidgetConfig { format: ClockFormat::DD_MM_YYYY_HH_MM_SS }),
    {
        ClockWidgetConfig { format: ClockFormat::DD_MM_YYYY_HH_MM_SS }
    }
}

/// Widget-level events for a clock widget.
#[derive(Clone, Copy, Debug, PartialEq, Eq, Structural)]
pub enum ClockWidgetEvent {
    SwitchFormat,
    SetTime(LocalTime),
}

/// The mutable state of one placed clock widget.
#[derive(Clone, Copy, Debug, PartialEq, Eq, Structural)]
pub struct ClockWidgetState {
    pub format: ClockFormat,
    pub time: LocalTime,
}

/// The clock module instance: holds the time its widgets start from.
#[derive(Clone, Copy, Debug, PartialEq, Eq, Structural)]
pub struct Clock {
    pub time: LocalTime,
}

impl Clock {
    /// Construct the module, reading the current wall-clock time.
    pub fn new(_config: ClockConfig) -> (m: Clock)
        ensures
            m.time.valid(),
    {
        Clock { time: now_local() }
    }

    /// The initial state of one placed widget.
    pub fn widget_state(&self, config: ClockWidgetConfig) -> (s: ClockWidgetState)
        ensures
            s == (ClockWidgetState { format: config.format, time: self.time }),
    {
        ClockWidgetState { format: config.format, time: self.time }
    }
}

/// The clock's widget behaviour.
pub struct ClockWidget;

impl ClockWidget {
    /// What a widget-level event does to a widget's state.
    pub open spec fn spec_update(state: ClockWidgetState, event: ClockWidgetEvent) -> ClockWidgetState {
        match event {
            ClockWidgetEvent::SwitchFormat => ClockWidgetState {
                format: state.format.spec_switch(),
                time: state.time,
            },
            ClockWidgetEvent::SetTime(t) => ClockWidgetState { format: state.format, time: t },
        }
    }

    /// What `update` hands back for re-dispatch: nothing, both events
    /// are handled locally.
    pub open spec fn spec_outcome(event: ClockWidgetEvent) -> Option<
        ModuleWidgetUpdateOutput<ClockWidgetEvent, ClockEvent>,
    > {
        match event {
            ClockWidgetEvent::SwitchFormat => None,
            ClockWidgetEvent::SetTime(_) => None,
        }
    }

    /// React to a widget-level event; both events are handled locally,
    /// so nothing is re-dispatched.
    pub fn update(state: &mut ClockWidgetState, event: ClockWidgetEvent) -> (r: Option<
        ModuleWidgetUpdateOutput<ClockWidgetEvent, ClockEvent>,
    >)
        ensures
            *final(state) == ClockWidget::spec_update(*old(state), event),
            r == ClockWidget::spec_outcome(event),
    {
        match event {
            ClockWidgetEvent::SwitchFormat => {
                state.format.switch();
            },
            ClockWidgetEvent::SetTime(t) => {
                state.time = t;
            },
        }
        None
    }
}

impl ModuleConfig for ClockConfig {

}

impl ModuleEvent for ClockEvent {

}

impl ModuleWidgetEvent for ClockWidgetEvent {

}

impl ModuleWidgetState for ClockWidgetState {

}

impl ModuleWidgetConfig for ClockWidgetConfig {
    type Style = ();
}

} // verus!
