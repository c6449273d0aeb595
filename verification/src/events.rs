//! The tagged unions that carry events between the host, the registry
//! and the modules, and the message type the registry hands back.

use vstd::prelude::*;

use crate::ids::WidgetId;
use crate::module::audio::{AudioEvent, AudioWidgetEvent};
use crate::module::battery::{BatteryEvent, BatteryWidgetEvent};
use crate::module::clock::{ClockEvent, ClockWidgetEvent};

verus! {

/// A module-level event, tagged by module kind.
#[derive(Clone, Debug)]
pub enum ModuleEventTy {
    Clock(ClockEvent),
    Battery(BatteryEvent),
    Audio(AudioEvent),
}

/// A widget-level event, tagged by module kind.
#[derive(Clone, Debug)]
pub enum ModuleWidgetEventTy {
    Clock(ClockWidgetEvent),
    Battery(BatteryWidgetEvent),
    Audio(AudioWidgetEvent),
}

/// An event addressed to the registry: to a module, or to one placed
/// widget by id.
#[derive(Clone, Debug)]
pub enum ModuleRegistryEvent {
    Module(ModuleEventTy),
    Widget(WidgetId, ModuleWidgetEventTy),
}

impl ModuleRegistryEvent {
    /// Wrap a module-level event.
    pub fn module(e: ModuleEventTy) -> (r: Self)
        ensures
            r == ModuleRegistryEvent::Module(e),
    {
        ModuleRegistryEvent::Module(e)
    }

    /// Wrap a widget-level event addressed to the widget `id`.
    pub fn widget(id: WidgetId, e: ModuleWidgetEventTy) -> (r: Self)
        ensures
            r == ModuleRegistryEvent::Widget(id, e),
    {
        ModuleRegistryEvent::Widget(id, e)
    }
}

/// What the registry hands back to the host application: an error to
/// surface, or an event to re-dispatch to the registry.
#[derive(Clone, Debug)]
pub enum AppMsg {
    NotifyError(String),
    ModuleRegistry(ModuleRegistryEvent),
}

impl AppMsg {
    /// Wrap a registry event.
    pub fn module_registry(e: ModuleRegistryEvent) -> (r: Self)
        ensures
            r == AppMsg::ModuleRegistry(e),
    {
        AppMsg::ModuleRegistry(e)
    }
}

} // verus!
