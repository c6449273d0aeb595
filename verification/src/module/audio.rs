//! The audio module: displays the default output device's volume with a
//! matching icon. The host talks to the sound server and feeds a
//! snapshot of the devices in as events.

use vstd::prelude::*;

use crate::module::{
    ModuleEvent, ModuleWidgetEvent, ModuleWidgetState, ModuleWidgetUpdateOutput, NoConfig,
};
use crate::util::copy_vec;

verus! {

/// One output device as the host reports it.
#[derive(Clone, Debug)]
pub struct AudioDevice {
    pub name: String,
    pub muted: bool,
    pub volume: u8,
}

/// A complete poll of the sound server: every output device plus the
/// name of the default one.
#[derive(Clone, Debug)]
pub struct AudioSnapshot {
    pub default_device: String,
    pub devices: Vec<AudioDevice>,
}

/// The volume icon drawn next to the percentage.
#[derive(Clone, Copy, Debug, PartialEq, Eq, Structural)]
pub enum AudioGlyph {
    Mute,
    Off,
    Low,
    Medium,
    High,
}

/// One device's displayable data.
#[derive(Clone, Copy, Debug, PartialEq, Eq, Structural)]
pub struct AudioData {
    pub icon: AudioGlyph,
    pub volume: u8,
}

/// The icon for a device: muted wins; otherwise the volume is bucketed
/// as off, low (up to 33), medium (up to 66) or high.
pub open spec fn spec_audio_glyph(muted: bool, volume: u8) -> AudioGlyph {
    if muted {
        AudioGlyph::Mute
    } else if volume == 0 {
        AudioGlyph::Off
    } else if volume <= 33 {
        AudioGlyph::Low
    } else if volume <= 66 {
        AudioGlyph::Medium
    } else {
        AudioGlyph::High
    }
}

/// The displayable data derived from one device.
pub open spec fn spec_audio_data(d: AudioDevice) -> AudioData {
    AudioData { icon: spec_audio_glyph(d.muted, d.volume), volume: d.volume }
}

/// The icon for a device.
pub fn audio_glyph(muted: bool, volume: u8) -> (r: AudioGlyph)
    ensures
        r == spec_audio_glyph(muted, volume),
{
    if muted {
        AudioGlyph::Mute
    } else if volume == 0 {
        AudioGlyph::Off
    } else if volume <= 33 {
        AudioGlyph::Low
    } else if volume <= 66 {
        AudioGlyph::Medium
    } else {
        AudioGlyph::High
    }
}

impl AudioData {
    /// The displayable data derived from one device.
    pub fn new(device: &AudioDevice) -> (r: AudioData)
        ensures
            r == spec_audio_data(*device),
    {
        AudioData { icon: audio_glyph(device.muted, device.volume), volume: device.volume }
    }

    /// What is displayed when no default device is known.
    pub fn unknown() -> (r: AudioData)
        ensures
            r == (AudioData { icon: AudioGlyph::Off, volume: 0 }),
    {
        AudioData { icon: AudioGlyph::Off, volume: 0 }
    }
}

/// `r` is the position of the first device named `name`, or `None` if
/// no device has that name.
pub open spec fn is_first_device_index(
    devices: Seq<AudioDevice>,
    name: Seq<char>,
    r: Option<usize>,
) -> bool {
    match r {
        Some(i) => {
            &&& 0 <= i < devices.len()
            &&& devices[i as int].name@ == name
            &&& forall|j: int| 0 <= j < i ==> devices[j].name@ != name
        },
        None => forall|j: int| 0 <= j < devices.len() ==> devices[j].name@ != name,
    }
}

/// The position of the first device named `name`.
pub fn first_device_index(devices: &Vec<AudioDevice>, name: &String) -> (r: Option<usize>)
    ensures
        is_first_device_index(devices@, name@, r),
{
    let mut i: usize = 0;
    while i < devices.len()
        invariant
            i <= devices.len(),
            forall|j: int| 0 <= j < i ==> devices@[j].name@ != name@,
        decreases devices.len() - i,
    {
        if devices[i].name.eq(name) {
            return Some(i);
        }
        i = i + 1;
    }
    None
}

/// The displayable data for every device, in order.
pub fn audio_data_list(devices: &Vec<AudioDevice>) -> (r: Vec<AudioData>)
    ensures
        r@ == devices@.map_values(|d: AudioDevice| spec_audio_data(d)),
{
    let mut r: Vec<AudioData> = Vec::new();
    let mut i: usize = 0;
    while i < devices.len()
        invariant
            i <= devices.len(),
            r@ =~= devices@.take(i as int).map_values(|d: AudioDevice| spec_audio_data(d)),
        decreases devices.len() - i,
    {
        r.push(AudioData::new(&devices[i]));
        i = i + 1;
        proof {
            assert(r@ =~= devices@.take(i as int).map_values(
                |d: AudioDevice| spec_audio_data(d),
            ));
        }
    }
    proof {
        assert(devices@.take(devices@.len() as int) =~= devices@);
    }
    r
}

/// Module-level events for the audio module. `Refresh` is the scheduled
/// first-update event; talking to the sound server is host work, so it
/// changes nothing here. `SetData` delivers a completed poll.
#[derive(Clone, Debug)]
pub enum AudioEvent {
    Refresh,
    SetData(AudioSnapshot),
}

/// Widget-level events for an audio widget.
#[derive(Clone, Debug)]
pub enum AudioWidgetEvent {
    SetData(Option<usize>, Vec<AudioData>),
}

/// The mutable state of one placed audio widget.
#[derive(Clone, Debug)]
pub struct AudioWidgetState {
    pub default: Option<usize>,
    pub data: Vec<AudioData>,
}

/// The audio module instance: the devices from the last poll and the
/// position of the default one among them.
#[derive(Clone, Debug)]
pub struct Audio {
    pub default: Option<usize>,
    pub data: Vec<AudioData>,
}

impl Audio {
    /// Construct the module; no poll has been delivered yet.
    pub fn new(_config: NoConfig) -> (m: Audio)
        ensures
            m.default is None,
            m.data@ == Seq::<AudioData>::empty(),
    {
        Audio { default: None, data: Vec::new() }
    }

    /// The initial state of one placed widget: the module's data.
    pub fn widget_state(&self) -> (s: AudioWidgetState)
        ensures
            s.default == self.default,
            s.data@ == self.data@,
    {
        AudioWidgetState { default: self.default, data: copy_vec(&self.data) }
    }
}

/// The audio's widget behaviour.
pub struct AudioWidget;

impl AudioWidget {
    /// What `update` hands back for re-dispatch: nothing, the event is
    /// handled locally.
    pub open spec fn spec_outcome(event: AudioWidgetEvent) -> Option<
        ModuleWidgetUpdateOutput<AudioWidgetEvent, AudioEvent>,
    > {
        match event {
            AudioWidgetEvent::SetData(_, _) => None,
        }
    }

    /// React to a widget-level event; it is handled locally.
    pub fn update(state: &mut AudioWidgetState, event: AudioWidgetEvent) -> (r: Option<
        ModuleWidgetUpdateOutput<AudioWidgetEvent, AudioEvent>,
    >)
        ensures
            (match event {
                AudioWidgetEvent::SetData(default, data) => final(state).default == default
                    && final(state).data@ == data@,
            }),
            r == AudioWidget::spec_outcome(event),
    {
        match event {
            AudioWidgetEvent::SetData(default, data) => {
                state.default = default;
                state.data = data;
            },
        }
        None
    }
}

impl ModuleEvent for AudioEvent {

}

impl ModuleWidgetEvent for AudioWidgetEvent {

}

impl ModuleWidgetState for AudioWidgetState {

}

} // verus!
