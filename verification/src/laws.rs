//! Global laws of the registry, stated once over the contracts of
//! construction, event routing and rendering.

use vstd::prelude::*;

use crate::config::ModulesConfig;
use crate::module::ModuleKind;
use crate::registry::{
    audio_slot_ok, battery_slot_ok, clock_slot_ok, lemma_kind_counts_partition, spec_kind_count,
    spec_layout_row, spec_references, spec_view, ModuleRegistry,
};
use crate::render::{Region, RenderTreeV};

verus! {

/// A registry whose slots were built from a configuration owns exactly
/// one widget id per placed widget config: none is dropped, none is
/// duplicated.
pub proof fn lemma_widget_count(reg: ModuleRegistry, config: ModulesConfig)
    requires
        clock_slot_ok(
            reg.clock,
            config.configs.clock,
            config.widgets.left.widgets@,
            config.widgets.center.widgets@,
            config.widgets.right.widgets@,
        ),
        battery_slot_ok(
            reg.battery,
            config.configs.battery,
            config.widgets.left.widgets@,
            config.widgets.center.widgets@,
            config.widgets.right.widgets@,
        ),
        audio_slot_ok(
            reg.audio,
            config.configs.audio,
            config.widgets.left.widgets@,
            config.widgets.center.widgets@,
            config.widgets.right.widgets@,
        ),
    ensures
        reg.spec_all_ids().len() == config.widgets.left.widgets@.len()
            + config.widgets.center.widgets@.len() + config.widgets.right.widgets@.len(),
{
    lemma_kind_counts_partition(config.widgets.left.widgets@);
    lemma_kind_counts_partition(config.widgets.center.widgets@);
    lemma_kind_counts_partition(config.widgets.right.widgets@);
}

/// A registry whose layout rows were derived from a configuration
/// shows exactly as many ids as it owns; together with
/// [`ModuleRegistry::wf`] (all owned ids distinct, the layout refers
/// only to owned ids) the layout shows every owned widget exactly
/// once.
pub proof fn lemma_layout_complete(reg: ModuleRegistry, config: ModulesConfig)
    requires
        clock_slot_ok(
            reg.clock,
            config.configs.clock,
            config.widgets.left.widgets@,
            config.widgets.center.widgets@,
            config.widgets.right.widgets@,
        ),
        battery_slot_ok(
            reg.battery,
            config.configs.battery,
            config.widgets.left.widgets@,
            config.widgets.center.widgets@,
            config.widgets.right.widgets@,
        ),
        audio_slot_ok(
            reg.audio,
            config.configs.audio,
            config.widgets.left.widgets@,
            config.widgets.center.widgets@,
            config.widgets.right.widgets@,
        ),
        reg.widgets_layout.left.widget_ids@ == spec_layout_row(reg, config.widgets, Region::Left),
        reg.widgets_layout.center.widget_ids@ == spec_layout_row(
            reg,
            config.widgets,
            Region::Center,
        ),
        reg.widgets_layout.right.widget_ids@ == spec_layout_row(
            reg,
            config.widgets,
            Region::Right,
        ),
    ensures
        reg.spec_layout_ids().len() == reg.spec_all_ids().len(),
{
}

/// Rendering is a function of the registry value alone: two renders
/// with no event delivered in between are structurally identical.
pub proof fn lemma_view_idempotent(reg: ModuleRegistry, t1: RenderTreeV, t2: RenderTreeV)
    requires
        t1 == spec_view(reg),
        t2 == spec_view(reg),
    ensures
        t1 == t2,
{
}

/// The construction shape is a function of the configuration value:
/// two configurations with the same placement lists reference the same
/// module kinds and place the same number of widgets of each kind in
/// each region. In particular, a configuration that survives a
/// serialization round trip unchanged yields the same shape.
pub proof fn lemma_construction_shape_deterministic(
    c1: ModulesConfig,
    c2: ModulesConfig,
    k: ModuleKind,
)
    requires
        c1.widgets.left.widgets@ == c2.widgets.left.widgets@,
        c1.widgets.center.widgets@ == c2.widgets.center.widgets@,
        c1.widgets.right.widgets@ == c2.widgets.right.widgets@,
    ensures
        spec_references(c1.widgets, k) == spec_references(c2.widgets, k),
        spec_kind_count(c1.widgets.left.widgets@, k) == spec_kind_count(
            c2.widgets.left.widgets@,
            k,
        ),
        spec_kind_count(c1.widgets.center.widgets@, k) == spec_kind_count(
            c2.widgets.center.widgets@,
            k,
        ),
        spec_kind_count(c1.widgets.right.widgets@, k) == spec_kind_count(
            c2.widgets.right.widgets@,
            k,
        ),
{
}

} // verus!
