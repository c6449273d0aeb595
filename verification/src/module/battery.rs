//! The battery module: displays, per battery, a charge-level icon and a
//! percentage label. The host polls the machine's batteries and feeds
//! the data in as events.

use vstd::prelude::*;

use crate::module::{
    ModuleEvent, ModuleWidgetConfig, ModuleWidgetEvent, ModuleWidgetState,
    ModuleWidgetUpdateOutput, NoConfig,
};
use crate::util::copy_vec;

verus! {

/// Charging state of one battery, as the host reports it.
#[derive(Clone, Copy, Debug, PartialEq, Eq, Structural)]
pub enum BatteryState {
    Unknown,
    Charging,
    Discharging,
}

/// One battery's displayable data.
#[derive(Clone, Copy, Debug, PartialEq, Eq, Structural)]
pub struct BatteryData {
    pub level: u8,
    pub state: BatteryState,
}

/// How full a battery icon is drawn: one step per ten percent of charge.
#[derive(Clone, Copy, Debug, PartialEq, Eq, Structural)]
pub enum BatteryFill {
    Outline,
    Ten,
    Twenty,
    Thirty,
    Forty,
    Fifty,
    Sixty,
    Seventy,
    Eighty,
    Ninety,
    Full,
}

/// The icon for one battery: a fill step, drawn charging or not.
#[derive(Clone, Copy, Debug, PartialEq, Eq, Structural)]
pub struct BatteryGlyph {
    pub charging: bool,
    pub fill: BatteryFill,
}

/// The fill step for a charge level: `level / 10` rounded down, capped
/// at the full icon for one hundred percent and above.
pub open spec fn spec_battery_fill(level: u8) -> BatteryFill {
    if level < 10 {
        BatteryFill::Outline
    } else if level < 20 {
        BatteryFill::Ten
    } else if level < 30 {
        BatteryFill::Twenty
    } else if level < 40 {
        BatteryFill::Thirty
    } else if level < 50 {
        BatteryFill::Forty
    } else if level < 60 {
        BatteryFill::Fifty
    } else if level < 70 {
        BatteryFill::Sixty
    } else if level < 80 {
        BatteryFill::Seventy
    } else if level < 90 {
        BatteryFill::Eighty
    } else if level < 100 {
        BatteryFill::Ninety
    } else {
        BatteryFill::Full
    }
}

/// The icon for one battery's data.
pub open spec fn spec_battery_glyph(d: BatteryData) -> BatteryGlyph {
    BatteryGlyph { charging: d.state is Charging, fill: spec_battery_fill(d.level) }
}

/// The fill step for a charge level.
pub fn battery_fill(level: u8) -> (r: BatteryFill)
    ensures
        r == spec_battery_fill(level),
{
    if level < 10 {
        BatteryFill::Outline
    } else if level < 20 {
        BatteryFill::Ten
    } else if level < 30 {
        BatteryFill::Twenty
    } else if level < 40 {
        BatteryFill::Thirty
    } else if level < 50 {
        BatteryFill::Forty
    } else if level < 60 {
        BatteryFill::Fifty
    } else if level < 70 {
        BatteryFill::Sixty
    } else if level < 80 {
        BatteryFill::Seventy
    } else if level < 90 {
        BatteryFill::Eighty
    } else if level < 100 {
        BatteryFill::Ninety
    } else {
        BatteryFill::Full
    }
}

/// The icon for one battery's data.
pub fn battery_glyph(d: BatteryData) -> (r: BatteryGlyph)
    ensures
        r == spec_battery_glyph(d),
{
    let charging = matches!(d.state, BatteryState::Charging);
    BatteryGlyph { charging, fill: battery_fill(d.level) }
}

/// Module-level events for the battery module. `Refresh` is the
/// scheduled first-update event; gathering the data is host work, so it
/// changes nothing here. `SetData` delivers a completed poll.
#[derive(Clone, Debug)]
pub enum BatteryEvent {
    Refresh,
    SetData(Vec<BatteryData>),
}

/// Widget-level events for a battery widget.
#[derive(Clone, Debug)]
pub enum BatteryWidgetEvent {
    SetData(Vec<BatteryData>),
}

/// The mutable state of one placed battery widget.
#[derive(Clone, Debug)]
pub struct BatteryWidgetState {
    pub data: Vec<BatteryData>,
}

/// The battery module instance: the last data the host delivered.
#[derive(Clone, Debug)]
pub struct Battery {
    pub data: Vec<BatteryData>,
}

impl Battery {
    /// Construct the module; no data has been delivered yet.
    pub fn new(_config: NoConfig) -> (m: Battery)
        ensures
            m.data@ == Seq::<BatteryData>::empty(),
    {
        Battery { data: Vec::new() }
    }

    /// The initial state of one placed widget: the module's data.
    pub fn widget_state(&self, _config: NoConfig) -> (s: BatteryWidgetState)
        ensures
            s.data@ == self.data@,
    {
        BatteryWidgetState { data: copy_vec(&self.data) }
    }
}

/// The battery's widget behaviour.
pub struct BatteryWidget;

impl BatteryWidget {
    /// What a widget-level event does to a widget's state.
    pub open spec fn spec_update(state: BatteryWidgetState, event: BatteryWidgetEvent) -> Seq<
        BatteryData,
    > {
        match event {
            BatteryWidgetEvent::SetData(d) => d@,
        }
    }

    /// What `update` hands back for re-dispatch: nothing, the event is
    /// handled locally.
    pub open spec fn spec_outcome(event: BatteryWidgetEvent) -> Option<
        ModuleWidgetUpdateOutput<BatteryWidgetEvent, BatteryEvent>,
    > {
        match event {
            BatteryWidgetEvent::SetData(_) => None,
        }
    }

    /// React to a widget-level event; it is handled locally.
    pub fn update(state: &mut BatteryWidgetState, event: BatteryWidgetEvent) -> (r: Option<
        ModuleWidgetUpdateOutput<BatteryWidgetEvent, BatteryEvent>,
    >)
        ensures
            final(state).data@ == BatteryWidget::spec_update(*old(state), event),
            r == BatteryWidget::spec_outcome(event),
    {
        match event {
            BatteryWidgetEvent::SetData(d) => {
                state.data = d;
            },
        }
        None
    }
}

impl ModuleEvent for BatteryEvent {

}

impl ModuleWidgetEvent for BatteryWidgetEvent {

}

impl ModuleWidgetState for BatteryWidgetState {

}

impl ModuleWidgetConfig for NoConfig {
    type Style = ();
}

} // verus!
