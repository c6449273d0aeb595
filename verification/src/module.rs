//! The module framework: the closed set of module kinds, the marker
//! traits that group each kind's config, event and widget types, and the
//! outcome type of a widget-level update.
//!
//! A module kind is added by extending [`ModuleKind`], the per-kind
//! config, event and widget types, and the tagged unions in
//! [`crate::events`] and [`crate::config`] together.

pub mod audio;
pub mod battery;
pub mod clock;

use vstd::prelude::*;

verus! {

/// The closed set of module kinds the bar supports.
#[derive(Clone, Copy, Debug, PartialEq, Eq, Structural)]
pub enum ModuleKind {
    Clock,
    Battery,
    Audio,
}

/// Marker for a module's kind-specific configuration section.
pub trait ModuleConfig {

}

/// Marker for a module-level event type.
pub trait ModuleEvent {

}

/// Marker for a widget-level event type.
pub trait ModuleWidgetEvent {

}

/// Marker for a widget's mutable state type.
pub trait ModuleWidgetState {

}

/// Marker for a widget's immutable style type.
pub trait ModuleWidgetStyle {

}

/// A placed widget's configuration, tied to the widget's style type.
pub trait ModuleWidgetConfig {
    type Style;
}

/// Configuration for modules that have nothing to configure.
#[derive(Clone, Copy, Debug, PartialEq, Eq, Structural)]
pub struct NoConfig;

/// Event type for modules or widgets that receive no events.
#[derive(Clone, Copy, Debug, PartialEq, Eq, Structural)]
pub struct NoEvent;

impl ModuleConfig for NoConfig {

}

impl ModuleEvent for NoEvent {

}

impl ModuleWidgetStyle for () {

}

/// What a widget's `update` hands back when an event is not fully
/// handled locally: re-dispatch it as a widget-level event or propagate
/// it up as a module-level event.
#[derive(Clone, Debug)]
pub enum ModuleWidgetUpdateOutput<WE, ME> {
    Widget(WE),
    Module(ME),
}

impl<WE, ME> ModuleWidgetUpdateOutput<WE, ME> {
    pub fn widget(event: WE) -> (r: Self)
        ensures
            r == ModuleWidgetUpdateOutput::<WE, ME>::Widget(event),
    {
        ModuleWidgetUpdateOutput::Widget(event)
    }

    pub fn module(event: ME) -> (r: Self)
        ensures
            r == ModuleWidgetUpdateOutput::<WE, ME>::Module(event),
    {
        ModuleWidgetUpdateOutput::Module(event)
    }
}

} // verus!
