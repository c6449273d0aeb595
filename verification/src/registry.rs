//! The module registry: one optional slot per module kind, each slot
//! owning its module instance and that module's placed widgets, plus
//! the ordered layout of widget ids over the three screen regions.
//!
//! Construction scans the configured placements, instantiates exactly
//! the referenced kinds, draws a fresh unique id per placed widget and
//! derives the layout. At runtime, events are routed to the owning
//! module or widget by kind and id, and `view` renders the layout as a
//! plain data tree.

use vstd::prelude::*;

use crate::config::{
    GenericModuleConfig, GenericModuleInfo, ModuleWidgetConfigTy, ModuleWidgetGroupConfig,
    ModuleWidgetGroupConfigs, ModuleWidgetGroupStyle, ModulesConfig, StyledModuleWidgetConfig,
};
use crate::events::{AppMsg, ModuleEventTy, ModuleRegistryEvent, ModuleWidgetEventTy};
use crate::ids::{contains_id, fresh_widget_id, WidgetId};
use crate::module::audio::{
    audio_data_list, first_device_index, is_first_device_index, spec_audio_data, Audio, AudioData,
    AudioDevice, AudioEvent, AudioSnapshot, AudioWidget, AudioWidgetEvent, AudioWidgetState,
};
use crate::module::battery::{
    Battery, BatteryData, BatteryEvent, BatteryWidget, BatteryWidgetEvent, BatteryWidgetState,
};
use crate::module::clock::{
    clock_text, Clock, ClockConfig, ClockEvent, ClockWidget, ClockWidgetConfig, ClockWidgetEvent,
    ClockWidgetState,
};
use crate::module::{ModuleKind, ModuleWidgetUpdateOutput, NoConfig};
use crate::render::{
    render_group_views, span_views, widget_render_views, GlyphSpan, GlyphSpanV, Icon, Region,
    RenderGroup, RenderGroupV, RenderNode, RenderNodeV, RenderTree, RenderTreeV, WidgetRender,
    WidgetRenderV,
};
use crate::time::{now_local, LocalTime};
use crate::util::copy_vec;

verus! {

/// A deferred job for the host: after `delay_ms` milliseconds, deliver
/// `msg` back to the application. The registry schedules nothing
/// itself.
#[derive(Clone, Debug)]
pub struct ScheduledTask {
    pub delay_ms: u64,
    pub msg: AppMsg,
}

/// The errors the registry reports as values.
#[derive(Clone, Copy, Debug, PartialEq, Eq, Structural)]
pub enum RegistryError {
    /// Two freshly drawn widget ids collided at construction.
    DuplicateWidgetId,
    /// An event was addressed to a module kind that is not present.
    ModuleAbsent(ModuleKind),
    /// A widget event was addressed to an id no module owns.
    UnknownWidgetId(WidgetId),
}

impl RegistryError {
    /// A human-readable description of the error.
    pub open spec fn spec_message(self) -> Seq<char> {
        match self {
            RegistryError::DuplicateWidgetId => "duplicate widget id drawn at construction"@,
            RegistryError::ModuleAbsent(_) => "event addressed to a module that is not present"@,
            RegistryError::UnknownWidgetId(_) => "event addressed to an unknown widget id"@,
        }
    }

    /// A human-readable description of the error.
    pub fn message(&self) -> (s: String)
        ensures
            s@ == self.spec_message(),
    {
        match self {
            RegistryError::DuplicateWidgetId => String::from_str(
                "duplicate widget id drawn at construction",
            ),
            RegistryError::ModuleAbsent(_) => String::from_str(
                "event addressed to a module that is not present",
            ),
            RegistryError::UnknownWidgetId(_) => String::from_str(
                "event addressed to an unknown widget id",
            ),
        }
    }
}

/// One widget instance owned by a module: its mutable state and its
/// optional immutable style.
#[derive(Clone, Debug)]
pub struct RegistryModuleWidgetInfo<S, St> {
    pub state: S,
    pub style: Option<St>,
}

/// One present module: the instance, its generic metadata, and its
/// widget instances keyed by id, in layout scan order (left widgets,
/// then center, then right).
#[derive(Debug)]
pub struct RegistryModuleInfo<M, S, St> {
    pub module: M,
    pub info: GenericModuleInfo,
    pub widgets: Vec<(WidgetId, RegistryModuleWidgetInfo<S, St>)>,
}

/// The widget ids of one region, in display order, with the region's
/// group style.
#[derive(Debug)]
pub struct StyledModuleWidgetRow {
    pub widget_ids: Vec<WidgetId>,
    pub style: ModuleWidgetGroupStyle,
}

/// The three regions' ordered widget ids.
#[derive(Debug)]
pub struct ModuleWidgetsLayout {
    pub left: StyledModuleWidgetRow,
    pub center: StyledModuleWidgetRow,
    pub right: StyledModuleWidgetRow,
}

/// The registry: one optional slot per module kind plus the layout.
#[derive(Debug)]
pub struct ModuleRegistry {
    pub widgets_layout: ModuleWidgetsLayout,
    pub clock: Option<RegistryModuleInfo<Clock, ClockWidgetState, ()>>,
    pub battery: Option<RegistryModuleInfo<Battery, BatteryWidgetState, ()>>,
    pub audio: Option<RegistryModuleInfo<Audio, AudioWidgetState, ()>>,
}

/// No id occurs twice in `s`.
pub open spec fn distinct(s: Seq<WidgetId>) -> bool {
    forall|i: int, j: int| 0 <= i < j < s.len() ==> s[i] != s[j]
}

/// The ids of a widget map, in map order.
pub open spec fn spec_ids<S, St>(
    widgets: Seq<(WidgetId, RegistryModuleWidgetInfo<S, St>)>,
) -> Seq<WidgetId> {
    widgets.map_values(|p: (WidgetId, RegistryModuleWidgetInfo<S, St>)| p.0)
}

/// The ids a slot owns: none if the slot is absent.
pub open spec fn spec_slot_ids<M, S, St>(
    slot: Option<RegistryModuleInfo<M, S, St>>,
) -> Seq<WidgetId> {
    match slot {
        Some(m) => spec_ids(m.widgets@),
        None => Seq::empty(),
    }
}

/// The sub-sequence `[from, to)` of the ids a slot owns: none if the
/// slot is absent.
pub open spec fn spec_slot_ids_range<M, S, St>(
    slot: Option<RegistryModuleInfo<M, S, St>>,
    from: int,
    to: int,
) -> Seq<WidgetId> {
    match slot {
        Some(m) => spec_ids(m.widgets@).subrange(from, to),
        None => Seq::empty(),
    }
}

impl ModuleRegistry {
    /// Every widget id the registry owns, grouped by kind.
    pub open spec fn spec_all_ids(self) -> Seq<WidgetId> {
        spec_slot_ids(self.clock) + spec_slot_ids(self.battery) + spec_slot_ids(self.audio)
    }

    /// Every widget id the layout shows, in region order.
    pub open spec fn spec_layout_ids(self) -> Seq<WidgetId> {
        self.widgets_layout.left.widget_ids@ + self.widgets_layout.center.widget_ids@
            + self.widgets_layout.right.widget_ids@
    }

    /// Well-formed: every id is owned by exactly one widget of one
    /// module, and the layout refers only to owned ids.
    pub open spec fn wf(self) -> bool {
        &&& distinct(self.spec_all_ids())
        &&& forall|id: WidgetId|
            self.spec_layout_ids().contains(id) ==> self.spec_all_ids().contains(id)
    }
}

/// The clock placements among `ws`, in order.
pub open spec fn clock_placements(ws: Seq<ModuleWidgetConfigTy>) -> Seq<
    StyledModuleWidgetConfig<ClockWidgetConfig>,
>
    decreases ws.len(),
{
    if ws.len() == 0 {
        Seq::empty()
    } else {
        let rest = clock_placements(ws.drop_last());
        match ws.last() {
            ModuleWidgetConfigTy::Clock(c) => rest.push(c),
            _ => rest,
        }
    }
}

/// The battery placements among `ws`, in order.
pub open spec fn battery_placements(ws: Seq<ModuleWidgetConfigTy>) -> Seq<
    StyledModuleWidgetConfig<NoConfig>,
>
    decreases ws.len(),
{
    if ws.len() == 0 {
        Seq::empty()
    } else {
        let rest = battery_placements(ws.drop_last());
        match ws.last() {
            ModuleWidgetConfigTy::Battery(c) => rest.push(c),
            _ => rest,
        }
    }
}

/// The audio placements among `ws`, in order.
pub open spec fn audio_placements(ws: Seq<ModuleWidgetConfigTy>) -> Seq<
    StyledModuleWidgetConfig<NoConfig>,
>
    decreases ws.len(),
{
    if ws.len() == 0 {
        Seq::empty()
    } else {
        let rest = audio_placements(ws.drop_last());
        match ws.last() {
            ModuleWidgetConfigTy::Audio(c) => rest.push(c),
            _ => rest,
        }
    }
}

/// How many placements in `ws` reference kind `k`.
pub open spec fn spec_kind_count(ws: Seq<ModuleWidgetConfigTy>, k: ModuleKind) -> nat {
    match k {
        ModuleKind::Clock => clock_placements(ws).len(),
        ModuleKind::Battery => battery_placements(ws).len(),
        ModuleKind::Audio => audio_placements(ws).len(),
    }
}

/// Whether any placement in the three regions references kind `k`.
pub open spec fn spec_references(w: ModuleWidgetGroupConfigs, k: ModuleKind) -> bool {
    spec_kind_count(w.left.widgets@, k) + spec_kind_count(w.center.widgets@, k) + spec_kind_count(
        w.right.widgets@,
        k,
    ) > 0
}

/// Extending a prefix of `ws` by one element extends its clock
/// placements exactly when that element is a clock placement.
proof fn lemma_clock_placements_step(ws: Seq<ModuleWidgetConfigTy>, i: int)
    requires
        0 <= i < ws.len(),
    ensures
        clock_placements(ws.take(i + 1)) == (match ws[i] {
            ModuleWidgetConfigTy::Clock(c) => clock_placements(ws.take(i)).push(c),
            _ => clock_placements(ws.take(i)),
        }),
{
    assert(ws.take(i + 1).drop_last() =~= ws.take(i));
    assert(ws.take(i + 1).last() == ws[i]);
}

/// Extending a prefix of `ws` by one element extends its battery
/// placements exactly when that element is a battery placement.
proof fn lemma_battery_placements_step(ws: Seq<ModuleWidgetConfigTy>, i: int)
    requires
        0 <= i < ws.len(),
    ensures
        battery_placements(ws.take(i + 1)) == (match ws[i] {
            ModuleWidgetConfigTy::Battery(c) => battery_placements(ws.take(i)).push(c),
            _ => battery_placements(ws.take(i)),
        }),
{
    assert(ws.take(i + 1).drop_last() =~= ws.take(i));
    assert(ws.take(i + 1).last() == ws[i]);
}

/// Extending a prefix of `ws` by one element extends its audio
/// placements exactly when that element is an audio placement.
proof fn lemma_audio_placements_step(ws: Seq<ModuleWidgetConfigTy>, i: int)
    requires
        0 <= i < ws.len(),
    ensures
        audio_placements(ws.take(i + 1)) == (match ws[i] {
            ModuleWidgetConfigTy::Audio(c) => audio_placements(ws.take(i)).push(c),
            _ => audio_placements(ws.take(i)),
        }),
{
    assert(ws.take(i + 1).drop_last() =~= ws.take(i));
    assert(ws.take(i + 1).last() == ws[i]);
}

/// Extending a prefix of `ws` by one element raises the count of kind
/// `k` exactly when that element references `k`.
proof fn lemma_kind_count_step(ws: Seq<ModuleWidgetConfigTy>, k: ModuleKind, i: int)
    requires
        0 <= i < ws.len(),
    ensures
        spec_kind_count(ws.take(i + 1), k) == spec_kind_count(ws.take(i), k) + (
        if ws[i].spec_kind() == k {
            1nat
        } else {
            0nat
        }),
{
    lemma_clock_placements_step(ws, i);
    lemma_battery_placements_step(ws, i);
    lemma_audio_placements_step(ws, i);
}

/// A prefix never holds more placements of a kind than the whole.
proof fn lemma_kind_count_mono(ws: Seq<ModuleWidgetConfigTy>, k: ModuleKind, n: int)
    requires
        0 <= n <= ws.len(),
    ensures
        spec_kind_count(ws.take(n), k) <= spec_kind_count(ws, k),
    decreases ws.len() - n,
{
    if n == ws.len() {
        assert(ws.take(n) =~= ws);
    } else {
        lemma_kind_count_step(ws, k, n);
        lemma_kind_count_mono(ws, k, n + 1);
    }
}

/// Every placement references exactly one module kind, so the three
/// per-kind counts of a placement list partition its length.
pub proof fn lemma_kind_counts_partition(ws: Seq<ModuleWidgetConfigTy>)
    ensures
        spec_kind_count(ws, ModuleKind::Clock) + spec_kind_count(ws, ModuleKind::Battery)
            + spec_kind_count(ws, ModuleKind::Audio) == ws.len(),
    decreases ws.len(),
{
    if ws.len() > 0 {
        lemma_kind_counts_partition(ws.drop_last());
    }
}

/// Appending a fresh id keeps a distinct sequence distinct.
proof fn lemma_distinct_push(s: Seq<WidgetId>, x: WidgetId)
    requires
        distinct(s),
        !s.contains(x),
    ensures
        distinct(s.push(x)),
{
    assert forall|a: int, b: int| 0 <= a < b < s.push(x).len() implies s.push(x)[a] != s.push(x)[b] by {
        if b == s.len() {
            if s[a] == x {
                assert(s.contains(x));
            }
        }
    }
}

/// Whether any placement in `ws` references kind `k`.
fn region_has_kind(ws: &Vec<ModuleWidgetConfigTy>, k: ModuleKind) -> (b: bool)
    ensures
        b == (spec_kind_count(ws@, k) > 0),
{
    let mut i: usize = 0;
    while i < ws.len()
        invariant
            i <= ws.len(),
            spec_kind_count(ws@.take(i as int), k) == 0,
        decreases ws.len() - i,
    {
        proof {
            lemma_kind_count_step(ws@, k, i as int);
        }
        if ws[i].kind() == k {
            proof {
                lemma_kind_count_mono(ws@, k, i as int + 1);
            }
            return true;
        }
        i = i + 1;
    }
    proof {
        assert(ws@.take(ws@.len() as int) =~= ws@);
    }
    false
}

/// An element of a sub-sequence of `s` is an element of `s`.
proof fn lemma_subrange_contains(s: Seq<WidgetId>, a: int, b: int, id: WidgetId)
    requires
        0 <= a <= b <= s.len(),
        s.subrange(a, b).contains(id),
    ensures
        s.contains(id),
{
    let k = choose|k: int| 0 <= k < b - a && s.subrange(a, b)[k] == id;
    assert(s[a + k] == id);
}

/// An element of a concatenation is an element of one of its parts.
proof fn lemma_concat_contains(x: Seq<WidgetId>, y: Seq<WidgetId>, id: WidgetId)
    requires
        (x + y).contains(id),
    ensures
        x.contains(id) || y.contains(id),
{
    let i = choose|i: int| 0 <= i < (x + y).len() && (x + y)[i] == id;
    if i < x.len() {
        assert(x[i] == id);
    } else {
        assert(y[i - x.len()] == id);
    }
}

/// An element of either part is an element of the concatenation.
proof fn lemma_contains_concat(x: Seq<WidgetId>, y: Seq<WidgetId>, id: WidgetId)
    requires
        x.contains(id) || y.contains(id),
    ensures
        (x + y).contains(id),
{
    if x.contains(id) {
        let i = choose|i: int| 0 <= i < x.len() && x[i] == id;
        assert((x + y)[i] == id);
    } else {
        let i = choose|i: int| 0 <= i < y.len() && y[i] == id;
        assert((x + y)[x.len() + i] == id);
    }
}

/// What a well-built clock slot holds, given the clock's configuration
/// section and the three regions' placement lists: absent exactly when
/// nothing references the clock; otherwise one widget per clock
/// placement, in region order, each with its configured format, the
/// module's construction time, and its configured style.
pub open spec fn clock_slot_ok(
    slot: Option<RegistryModuleInfo<Clock, ClockWidgetState, ()>>,
    section: GenericModuleConfig<ClockConfig>,
    wl: Seq<ModuleWidgetConfigTy>,
    wc: Seq<ModuleWidgetConfigTy>,
    wr: Seq<ModuleWidgetConfigTy>,
) -> bool {
    let ps = clock_placements(wl) + clock_placements(wc) + clock_placements(wr);
    match slot {
        None => ps.len() == 0,
        Some(m) => {
            &&& ps.len() > 0
            &&& m.info == section.info
            &&& m.module.time.valid()
            &&& m.widgets@.len() == ps.len()
            &&& forall|j: int|
                0 <= j < ps.len() ==> #[trigger] m.widgets@[j].1 == (RegistryModuleWidgetInfo {
                    state: ClockWidgetState { format: ps[j].config.format, time: m.module.time },
                    style: ps[j].style,
                })
        },
    }
}

/// What a well-built battery slot holds: absent exactly when nothing
/// references the battery; otherwise one widget per battery placement,
/// each starting from the module's (empty) data, with its configured
/// style.
pub open spec fn battery_slot_ok(
    slot: Option<RegistryModuleInfo<Battery, BatteryWidgetState, ()>>,
    section: GenericModuleConfig<NoConfig>,
    wl: Seq<ModuleWidgetConfigTy>,
    wc: Seq<ModuleWidgetConfigTy>,
    wr: Seq<ModuleWidgetConfigTy>,
) -> bool {
    let ps = battery_placements(wl) + battery_placements(wc) + battery_placements(wr);
    match slot {
        None => ps.len() == 0,
        Some(m) => {
            &&& ps.len() > 0
            &&& m.info == section.info
            &&& m.module.data@ == Seq::<crate::module::battery::BatteryData>::empty()
            &&& m.widgets@.len() == ps.len()
            &&& forall|j: int|
                0 <= j < ps.len() ==> {
                    &&& (#[trigger] m.widgets@[j]).1.state.data@ == m.module.data@
                    &&& m.widgets@[j].1.style == ps[j].style
                }
        },
    }
}

/// What a well-built audio slot holds: absent exactly when nothing
/// references the audio module; otherwise one widget per audio
/// placement, each starting from the module's (empty) data, with its
/// configured style.
pub open spec fn audio_slot_ok(
    slot: Option<RegistryModuleInfo<Audio, AudioWidgetState, ()>>,
    section: GenericModuleConfig<NoConfig>,
    wl: Seq<ModuleWidgetConfigTy>,
    wc: Seq<ModuleWidgetConfigTy>,
    wr: Seq<ModuleWidgetConfigTy>,
) -> bool {
    let ps = audio_placements(wl) + audio_placements(wc) + audio_placements(wr);
    match slot {
        None => ps.len() == 0,
        Some(m) => {
            &&& ps.len() > 0
            &&& m.info == section.info
            &&& m.module.default is None
            &&& m.module.data@ == Seq::<crate::module::audio::AudioData>::empty()
            &&& m.widgets@.len() == ps.len()
            &&& forall|j: int|
                0 <= j < ps.len() ==> {
                    &&& (#[trigger] m.widgets@[j]).1.state.default == m.module.default
                    &&& m.widgets@[j].1.state.data@ == m.module.data@
                    &&& m.widgets@[j].1.style == ps[j].style
                }
        },
    }
}

/// The widget ids one region shows: for each kind in kind order, the
/// ids of that kind's placements in this region, which stand as a
/// contiguous range of the kind's widget map.
pub open spec fn spec_layout_row(
    reg: ModuleRegistry,
    w: ModuleWidgetGroupConfigs,
    region: Region,
) -> Seq<WidgetId> {
    let cl = spec_kind_count(w.left.widgets@, ModuleKind::Clock) as int;
    let cc = spec_kind_count(w.center.widgets@, ModuleKind::Clock) as int;
    let cr = spec_kind_count(w.right.widgets@, ModuleKind::Clock) as int;
    let bl = spec_kind_count(w.left.widgets@, ModuleKind::Battery) as int;
    let bc = spec_kind_count(w.center.widgets@, ModuleKind::Battery) as int;
    let br = spec_kind_count(w.right.widgets@, ModuleKind::Battery) as int;
    let al = spec_kind_count(w.left.widgets@, ModuleKind::Audio) as int;
    let ac = spec_kind_count(w.center.widgets@, ModuleKind::Audio) as int;
    let ar = spec_kind_count(w.right.widgets@, ModuleKind::Audio) as int;
    match region {
        Region::Left => spec_slot_ids_range(reg.clock, 0, cl) + spec_slot_ids_range(
            reg.battery,
            0,
            bl,
        ) + spec_slot_ids_range(reg.audio, 0, al),
        Region::Center => spec_slot_ids_range(reg.clock, cl, cl + cc) + spec_slot_ids_range(
            reg.battery,
            bl,
            bl + bc,
        ) + spec_slot_ids_range(reg.audio, al, al + ac),
        Region::Right => spec_slot_ids_range(reg.clock, cl + cc, cl + cc + cr)
            + spec_slot_ids_range(reg.battery, bl + bc, bl + bc + br) + spec_slot_ids_range(
            reg.audio,
            al + ac,
            al + ac + ar,
        ),
    }
}

/// Append the ids of `widgets`, in order, to `ids`.
fn push_ids<S, St>(ids: &mut Vec<WidgetId>, widgets: &Vec<(WidgetId, RegistryModuleWidgetInfo<S, St>)>)
    ensures
        final(ids)@ == old(ids)@ + spec_ids(widgets@),
{
    let ghost ids0 = ids@;
    let mut i: usize = 0;
    while i < widgets.len()
        invariant
            i <= widgets.len(),
            ids@ =~= ids0 + spec_ids(widgets@).take(i as int),
        decreases widgets.len() - i,
    {
        ids.push(widgets[i].0);
        i = i + 1;
    }
    proof {
        assert(ids@ =~= ids0 + spec_ids(widgets@));
    }
}

/// Draw a fresh id and build the initial widget for every clock
/// placement in one region's list, in order.
fn collect_clock_region(
    module: &Clock,
    ws: &Vec<ModuleWidgetConfigTy>,
    used: &mut Vec<WidgetId>,
) -> (r: Result<Vec<(WidgetId, RegistryModuleWidgetInfo<ClockWidgetState, ()>)>, RegistryError>)
    requires
        distinct(old(used)@),
    ensures
        match r {
            Ok(v) => {
                let ps = clock_placements(ws@);
                &&& v@.len() == ps.len()
                &&& forall|j: int|
                    0 <= j < ps.len() ==> #[trigger] v@[j].1 == (RegistryModuleWidgetInfo {
                        state: ClockWidgetState { format: ps[j].config.format, time: module.time },
                        style: ps[j].style,
                    })
                &&& final(used)@ == old(used)@ + spec_ids(v@)
                &&& distinct(final(used)@)
            },
            Err(e) => {
                &&& e == RegistryError::DuplicateWidgetId
                &&& old(used)@.len() + clock_placements(ws@).len() >= 2
            },
        },
{
    let ghost used0 = used@;
    let mut v: Vec<(WidgetId, RegistryModuleWidgetInfo<ClockWidgetState, ()>)> = Vec::new();
    let mut i: usize = 0;
    while i < ws.len()
        invariant
            i <= ws.len(),
            used0 == old(used)@,
            distinct(used@),
            v@.len() == clock_placements(ws@.take(i as int)).len(),
            forall|j: int|
                0 <= j < v@.len() ==> #[trigger] v@[j].1 == (RegistryModuleWidgetInfo {
                    state: ClockWidgetState {
                        format: clock_placements(ws@.take(i as int))[j].config.format,
                        time: module.time,
                    },
                    style: clock_placements(ws@.take(i as int))[j].style,
                }),
            used@ == used0 + spec_ids(v@),
        decreases ws.len() - i,
    {
        proof {
            lemma_clock_placements_step(ws@, i as int);
        }
        match &ws[i] {
            ModuleWidgetConfigTy::Clock(sc) => {
                let id = fresh_widget_id();
                if contains_id(used, id) {
                    // A collision needs an earlier draw and this one,
                    // so at least two placements of this kind exist.
                    proof {
                        assert(used@.len() >= 1);
                        assert(spec_ids(v@).len() == v@.len());
                        lemma_kind_count_mono(ws@, ModuleKind::Clock, i as int + 1);
                    }
                    return Err(RegistryError::DuplicateWidgetId);
                }
                proof {
                    lemma_distinct_push(used@, id);
                }
                let ghost v0 = v@;
                used.push(id);
                let state = module.widget_state(sc.config);
                v.push((id, RegistryModuleWidgetInfo { state, style: sc.style }));
                proof {
                    assert(spec_ids(v@) =~= spec_ids(v0).push(id));
                    assert(used@ =~= used0 + spec_ids(v@));
                }
            },
            _ => {},
        }
        i = i + 1;
    }
    proof {
        assert(ws@.take(ws@.len() as int) =~= ws@);
    }
    Ok(v)
}

/// Draw a fresh id and build the initial widget for every battery
/// placement in one region's list, in order.
fn collect_battery_region(
    module: &Battery,
    ws: &Vec<ModuleWidgetConfigTy>,
    used: &mut Vec<WidgetId>,
) -> (r: Result<Vec<(WidgetId, RegistryModuleWidgetInfo<BatteryWidgetState, ()>)>, RegistryError>)
    requires
        distinct(old(used)@),
    ensures
        match r {
            Ok(v) => {
                let ps = battery_placements(ws@);
                &&& v@.len() == ps.len()
                &&& forall|j: int|
                    0 <= j < ps.len() ==> {
                        &&& (#[trigger] v@[j]).1.state.data@ == module.data@
                        &&& v@[j].1.style == ps[j].style
                    }
                &&& final(used)@ == old(used)@ + spec_ids(v@)
                &&& distinct(final(used)@)
            },
            Err(e) => {
                &&& e == RegistryError::DuplicateWidgetId
                &&& old(used)@.len() + battery_placements(ws@).len() >= 2
            },
        },
{
    let ghost used0 = used@;
    let mut v: Vec<(WidgetId, RegistryModuleWidgetInfo<BatteryWidgetState, ()>)> = Vec::new();
    let mut i: usize = 0;
    while i < ws.len()
        invariant
            i <= ws.len(),
            used0 == old(used)@,
            distinct(used@),
            v@.len() == battery_placements(ws@.take(i as int)).len(),
            forall|j: int|
                0 <= j < v@.len() ==> {
                    &&& (#[trigger] v@[j]).1.state.data@ == module.data@
                    &&& v@[j].1.style == battery_placements(ws@.take(i as int))[j].style
                },
            used@ == used0 + spec_ids(v@),
        decreases ws.len() - i,
    {
        proof {
            lemma_battery_placements_step(ws@, i as int);
        }
        match &ws[i] {
            ModuleWidgetConfigTy::Battery(sc) => {
                let id = fresh_widget_id();
                if contains_id(used, id) {
                    // A collision needs an earlier draw and this one,
                    // so at least two placements of this kind exist.
                    proof {
                        assert(used@.len() >= 1);
                        assert(spec_ids(v@).len() == v@.len());
                        lemma_kind_count_mono(ws@, ModuleKind::Battery, i as int + 1);
                    }
                    return Err(RegistryError::DuplicateWidgetId);
                }
                proof {
                    lemma_distinct_push(used@, id);
                }
                let ghost v0 = v@;
                used.push(id);
                let state = module.widget_state(sc.config);
                v.push((id, RegistryModuleWidgetInfo { state, style: sc.style }));
                proof {
                    assert(spec_ids(v@) =~= spec_ids(v0).push(id));
                    assert(used@ =~= used0 + spec_ids(v@));
                }
            },
            _ => {},
        }
        i = i + 1;
    }
    proof {
        assert(ws@.take(ws@.len() as int) =~= ws@);
    }
    Ok(v)
}

/// Draw a fresh id and build the initial widget for every audio
/// placement in one region's list, in order.
fn collect_audio_region(
    module: &Audio,
    ws: &Vec<ModuleWidgetConfigTy>,
    used: &mut Vec<WidgetId>,
) -> (r: Result<Vec<(WidgetId, RegistryModuleWidgetInfo<AudioWidgetState, ()>)>, RegistryError>)
    requires
        distinct(old(used)@),
    ensures
        match r {
            Ok(v) => {
                let ps = audio_placements(ws@);
                &&& v@.len() == ps.len()
                &&& forall|j: int|
                    0 <= j < ps.len() ==> {
                        &&& (#[trigger] v@[j]).1.state.default == module.default
                        &&& v@[j].1.state.data@ == module.data@
                        &&& v@[j].1.style == ps[j].style
                    }
                &&& final(used)@ == old(used)@ + spec_ids(v@)
                &&& distinct(final(used)@)
            },
            Err(e) => {
                &&& e == RegistryError::DuplicateWidgetId
                &&& old(used)@.len() + audio_placements(ws@).len() >= 2
            },
        },
{
    let ghost used0 = used@;
    let mut v: Vec<(WidgetId, RegistryModuleWidgetInfo<AudioWidgetState, ()>)> = Vec::new();
    let mut i: usize = 0;
    while i < ws.len()
        invariant
            i <= ws.len(),
            used0 == old(used)@,
            distinct(used@),
            v@.len() == audio_placements(ws@.take(i as int)).len(),
            forall|j: int|
                0 <= j < v@.len() ==> {
                    &&& (#[trigger] v@[j]).1.state.default == module.default
                    &&& v@[j].1.state.data@ == module.data@
                    &&& v@[j].1.style == audio_placements(ws@.take(i as int))[j].style
                },
            used@ == used0 + spec_ids(v@),
        decreases ws.len() - i,
    {
        proof {
            lemma_audio_placements_step(ws@, i as int);
        }
        match &ws[i] {
            ModuleWidgetConfigTy::Audio(sc) => {
                let id = fresh_widget_id();
                if contains_id(used, id) {
                    // A collision needs an earlier draw and this one,
                    // so at least two placements of this kind exist.
                    proof {
                        assert(used@.len() >= 1);
                        assert(spec_ids(v@).len() == v@.len());
                        lemma_kind_count_mono(ws@, ModuleKind::Audio, i as int + 1);
                    }
                    return Err(RegistryError::DuplicateWidgetId);
                }
                proof {
                    lemma_distinct_push(used@, id);
                }
                let ghost v0 = v@;
                used.push(id);
                let state = module.widget_state();
                v.push((id, RegistryModuleWidgetInfo { state, style: sc.style }));
                proof {
                    assert(spec_ids(v@) =~= spec_ids(v0).push(id));
                    assert(used@ =~= used0 + spec_ids(v@));
                }
            },
            _ => {},
        }
        i = i + 1;
    }
    proof {
        assert(ws@.take(ws@.len() as int) =~= ws@);
    }
    Ok(v)
}

/// Build the clock slot from its configuration section and the three
/// regions' placement lists, appending the new widgets' ids to the
/// used-id list and to the per-region layout rows.
fn build_clock_slot(
    section: GenericModuleConfig<ClockConfig>,
    left_ws: &Vec<ModuleWidgetConfigTy>,
    center_ws: &Vec<ModuleWidgetConfigTy>,
    right_ws: &Vec<ModuleWidgetConfigTy>,
    used: &mut Vec<WidgetId>,
    left_ids: &mut Vec<WidgetId>,
    center_ids: &mut Vec<WidgetId>,
    right_ids: &mut Vec<WidgetId>,
) -> (r: Result<Option<RegistryModuleInfo<Clock, ClockWidgetState, ()>>, RegistryError>)
    requires
        distinct(old(used)@),
    ensures
        match r {
            Ok(slot) => {
                let nl = clock_placements(left_ws@).len() as int;
                let nc = clock_placements(center_ws@).len() as int;
                let nr = clock_placements(right_ws@).len() as int;
                &&& clock_slot_ok(slot, section, left_ws@, center_ws@, right_ws@)
                &&& final(used)@ == old(used)@ + spec_slot_ids(slot)
                &&& distinct(final(used)@)
                &&& final(left_ids)@ == old(left_ids)@ + spec_slot_ids_range(slot, 0, nl)
                &&& final(center_ids)@ == old(center_ids)@ + spec_slot_ids_range(slot, nl, nl + nc)
                &&& final(right_ids)@ == old(right_ids)@ + spec_slot_ids_range(
                    slot,
                    nl + nc,
                    nl + nc + nr,
                )
            },
            Err(e) => {
                &&& e == RegistryError::DuplicateWidgetId
                &&& old(used)@.len() + clock_placements(left_ws@).len() + clock_placements(center_ws@).len()
                    + clock_placements(right_ws@).len() >= 2
            },
        },
{
    let referenced = region_has_kind(left_ws, ModuleKind::Clock) || region_has_kind(
        center_ws,
        ModuleKind::Clock,
    ) || region_has_kind(right_ws, ModuleKind::Clock);
    if !referenced {
        proof {
            assert(used@ =~= used@ + Seq::<WidgetId>::empty());
            assert(left_ids@ =~= left_ids@ + Seq::<WidgetId>::empty());
            assert(center_ids@ =~= center_ids@ + Seq::<WidgetId>::empty());
            assert(right_ids@ =~= right_ids@ + Seq::<WidgetId>::empty());
        }
        return Ok(None);
    }
    let module = Clock::new(section.config);
    let ghost mt = module.time;
    let w_left = match collect_clock_region(&module, left_ws, used) {
        Ok(v) => v,
        Err(e) => return Err(e),
    };
    let mut w_center = match collect_clock_region(&module, center_ws, used) {
        Ok(v) => v,
        Err(e) => return Err(e),
    };
    let mut w_right = match collect_clock_region(&module, right_ws, used) {
        Ok(v) => v,
        Err(e) => return Err(e),
    };
    push_ids(left_ids, &w_left);
    push_ids(center_ids, &w_center);
    push_ids(right_ids, &w_right);
    let ghost gl = w_left@;
    let ghost gc = w_center@;
    let ghost gr = w_right@;
    let mut widgets = w_left;
    widgets.append(&mut w_center);
    widgets.append(&mut w_right);
    let slot = Some(RegistryModuleInfo { module, info: section.info, widgets });
    proof {
        let psl = clock_placements(left_ws@);
        let psc = clock_placements(center_ws@);
        let psr = clock_placements(right_ws@);
        let ps = psl + psc + psr;
        let m = slot.unwrap();
        assert(m.widgets@ =~= gl + gc + gr);
        assert(spec_ids(m.widgets@) =~= spec_ids(gl) + spec_ids(gc) + spec_ids(gr));
        assert forall|j: int| 0 <= j < ps.len() implies #[trigger] m.widgets@[j].1 == (
        RegistryModuleWidgetInfo {
            state: ClockWidgetState { format: ps[j].config.format, time: m.module.time },
            style: ps[j].style,
        }) by {
            if j < psl.len() {
                assert(m.widgets@[j] == gl[j]);
                assert(ps[j] == psl[j]);
            } else if j < psl.len() + psc.len() {
                assert(m.widgets@[j] == gc[j - psl.len()]);
                assert(ps[j] == psc[j - psl.len()]);
            } else {
                assert(m.widgets@[j] == gr[j - psl.len() - psc.len()]);
                assert(ps[j] == psr[j - psl.len() - psc.len()]);
            }
        }
        assert(used@ =~= old(used)@ + spec_ids(m.widgets@));
        assert(spec_ids(m.widgets@).subrange(0, psl.len() as int) =~= spec_ids(gl));
        assert(spec_ids(m.widgets@).subrange(
            psl.len() as int,
            psl.len() as int + psc.len() as int,
        ) =~= spec_ids(gc));
        assert(spec_ids(m.widgets@).subrange(
            psl.len() as int + psc.len() as int,
            psl.len() as int + psc.len() as int + psr.len() as int,
        ) =~= spec_ids(gr));
    }
    Ok(slot)
}

/// Build the battery slot, exactly as [`build_clock_slot`] builds the
/// clock's.
fn build_battery_slot(
    section: GenericModuleConfig<NoConfig>,
    left_ws: &Vec<ModuleWidgetConfigTy>,
    center_ws: &Vec<ModuleWidgetConfigTy>,
    right_ws: &Vec<ModuleWidgetConfigTy>,
    used: &mut Vec<WidgetId>,
    left_ids: &mut Vec<WidgetId>,
    center_ids: &mut Vec<WidgetId>,
    right_ids: &mut Vec<WidgetId>,
) -> (r: Result<Option<RegistryModuleInfo<Battery, BatteryWidgetState, ()>>, RegistryError>)
    requires
        distinct(old(used)@),
    ensures
        match r {
            Ok(slot) => {
                let nl = battery_placements(left_ws@).len() as int;
                let nc = battery_placements(center_ws@).len() as int;
                let nr = battery_placements(right_ws@).len() as int;
                &&& battery_slot_ok(slot, section, left_ws@, center_ws@, right_ws@)
                &&& final(used)@ == old(used)@ + spec_slot_ids(slot)
                &&& distinct(final(used)@)
                &&& final(left_ids)@ == old(left_ids)@ + spec_slot_ids_range(slot, 0, nl)
                &&& final(center_ids)@ == old(center_ids)@ + spec_slot_ids_range(slot, nl, nl + nc)
                &&& final(right_ids)@ == old(right_ids)@ + spec_slot_ids_range(
                    slot,
                    nl + nc,
                    nl + nc + nr,
                )
            },
            Err(e) => {
                &&& e == RegistryError::DuplicateWidgetId
                &&& old(used)@.len() + battery_placements(left_ws@).len() + battery_placements(center_ws@).len()
                    + battery_placements(right_ws@).len() >= 2
            },
        },
{
    let referenced = region_has_kind(left_ws, ModuleKind::Battery) || region_has_kind(
        center_ws,
        ModuleKind::Battery,
    ) || region_has_kind(right_ws, ModuleKind::Battery);
    if !referenced {
        proof {
            assert(used@ =~= used@ + Seq::<WidgetId>::empty());
            assert(left_ids@ =~= left_ids@ + Seq::<WidgetId>::empty());
            assert(center_ids@ =~= center_ids@ + Seq::<WidgetId>::empty());
            assert(right_ids@ =~= right_ids@ + Seq::<WidgetId>::empty());
        }
        return Ok(None);
    }
    let module = Battery::new(section.config);
    let w_left = match collect_battery_region(&module, left_ws, used) {
        Ok(v) => v,
        Err(e) => return Err(e),
    };
    let mut w_center = match collect_battery_region(&module, center_ws, used) {
        Ok(v) => v,
        Err(e) => return Err(e),
    };
    let mut w_right = match collect_battery_region(&module, right_ws, used) {
        Ok(v) => v,
        Err(e) => return Err(e),
    };
    push_ids(left_ids, &w_left);
    push_ids(center_ids, &w_center);
    push_ids(right_ids, &w_right);
    let ghost gl = w_left@;
    let ghost gc = w_center@;
    let ghost gr = w_right@;
    let mut widgets = w_left;
    widgets.append(&mut w_center);
    widgets.append(&mut w_right);
    let slot = Some(RegistryModuleInfo { module, info: section.info, widgets });
    proof {
        let psl = battery_placements(left_ws@);
        let psc = battery_placements(center_ws@);
        let psr = battery_placements(right_ws@);
        let ps = psl + psc + psr;
        let m = slot.unwrap();
        assert(m.widgets@ =~= gl + gc + gr);
        assert(spec_ids(m.widgets@) =~= spec_ids(gl) + spec_ids(gc) + spec_ids(gr));
        assert forall|j: int| 0 <= j < ps.len() implies {
            &&& (#[trigger] m.widgets@[j]).1.state.data@ == m.module.data@
            &&& m.widgets@[j].1.style == ps[j].style
        } by {
            if j < psl.len() {
                assert(m.widgets@[j] == gl[j]);
                assert(ps[j] == psl[j]);
            } else if j < psl.len() + psc.len() {
                assert(m.widgets@[j] == gc[j - psl.len()]);
                assert(ps[j] == psc[j - psl.len()]);
            } else {
                assert(m.widgets@[j] == gr[j - psl.len() - psc.len()]);
                assert(ps[j] == psr[j - psl.len() - psc.len()]);
            }
        }
        assert(used@ =~= old(used)@ + spec_ids(m.widgets@));
        assert(spec_ids(m.widgets@).subrange(0, psl.len() as int) =~= spec_ids(gl));
        assert(spec_ids(m.widgets@).subrange(
            psl.len() as int,
            psl.len() as int + psc.len() as int,
        ) =~= spec_ids(gc));
        assert(spec_ids(m.widgets@).subrange(
            psl.len() as int + psc.len() as int,
            psl.len() as int + psc.len() as int + psr.len() as int,
        ) =~= spec_ids(gr));
    }
    Ok(slot)
}

/// Build the audio slot, exactly as [`build_clock_slot`] builds the
/// clock's.
fn build_audio_slot(
    section: GenericModuleConfig<NoConfig>,
    left_ws: &Vec<ModuleWidgetConfigTy>,
    center_ws: &Vec<ModuleWidgetConfigTy>,
    right_ws: &Vec<ModuleWidgetConfigTy>,
    used: &mut Vec<WidgetId>,
    left_ids: &mut Vec<WidgetId>,
    center_ids: &mut Vec<WidgetId>,
    right_ids: &mut Vec<WidgetId>,
) -> (r: Result<Option<RegistryModuleInfo<Audio, AudioWidgetState, ()>>, RegistryError>)
    requires
        distinct(old(used)@),
    ensures
        match r {
            Ok(slot) => {
                let nl = audio_placements(left_ws@).len() as int;
                let nc = audio_placements(center_ws@).len() as int;
                let nr = audio_placements(right_ws@).len() as int;
                &&& audio_slot_ok(slot, section, left_ws@, center_ws@, right_ws@)
                &&& final(used)@ == old(used)@ + spec_slot_ids(slot)
                &&& distinct(final(used)@)
                &&& final(left_ids)@ == old(left_ids)@ + spec_slot_ids_range(slot, 0, nl)
                &&& final(center_ids)@ == old(center_ids)@ + spec_slot_ids_range(slot, nl, nl + nc)
                &&& final(right_ids)@ == old(right_ids)@ + spec_slot_ids_range(
                    slot,
                    nl + nc,
                    nl + nc + nr,
                )
            },
            Err(e) => {
                &&& e == RegistryError::DuplicateWidgetId
                &&& old(used)@.len() + audio_placements(left_ws@).len() + audio_placements(center_ws@).len()
                    + audio_placements(right_ws@).len() >= 2
            },
        },
{
    let referenced = region_has_kind(left_ws, ModuleKind::Audio) || region_has_kind(
        center_ws,
        ModuleKind::Audio,
    ) || region_has_kind(right_ws, ModuleKind::Audio);
    if !referenced {
        proof {
            assert(used@ =~= used@ + Seq::<WidgetId>::empty());
            assert(left_ids@ =~= left_ids@ + Seq::<WidgetId>::empty());
            assert(center_ids@ =~= center_ids@ + Seq::<WidgetId>::empty());
            assert(right_ids@ =~= right_ids@ + Seq::<WidgetId>::empty());
        }
        return Ok(None);
    }
    let module = Audio::new(section.config);
    let w_left = match collect_audio_region(&module, left_ws, used) {
        Ok(v) => v,
        Err(e) => return Err(e),
    };
    let mut w_center = match collect_audio_region(&module, center_ws, used) {
        Ok(v) => v,
        Err(e) => return Err(e),
    };
    let mut w_right = match collect_audio_region(&module, right_ws, used) {
        Ok(v) => v,
        Err(e) => return Err(e),
    };
    push_ids(left_ids, &w_left);
    push_ids(center_ids, &w_center);
    push_ids(right_ids, &w_right);
    let ghost gl = w_left@;
    let ghost gc = w_center@;
    let ghost gr = w_right@;
    let mut widgets = w_left;
    widgets.append(&mut w_center);
    widgets.append(&mut w_right);
    let slot = Some(RegistryModuleInfo { module, info: section.info, widgets });
    proof {
        let psl = audio_placements(left_ws@);
        let psc = audio_placements(center_ws@);
        let psr = audio_placements(right_ws@);
        let ps = psl + psc + psr;
        let m = slot.unwrap();
        assert(m.widgets@ =~= gl + gc + gr);
        assert(spec_ids(m.widgets@) =~= spec_ids(gl) + spec_ids(gc) + spec_ids(gr));
        assert forall|j: int| 0 <= j < ps.len() implies {
            &&& (#[trigger] m.widgets@[j]).1.state.default == m.module.default
            &&& m.widgets@[j].1.state.data@ == m.module.data@
            &&& m.widgets@[j].1.style == ps[j].style
        } by {
            if j < psl.len() {
                assert(m.widgets@[j] == gl[j]);
                assert(ps[j] == psl[j]);
            } else if j < psl.len() + psc.len() {
                assert(m.widgets@[j] == gc[j - psl.len()]);
                assert(ps[j] == psc[j - psl.len()]);
            } else {
                assert(m.widgets@[j] == gr[j - psl.len() - psc.len()]);
                assert(ps[j] == psr[j - psl.len() - psc.len()]);
            }
        }
        assert(used@ =~= old(used)@ + spec_ids(m.widgets@));
        assert(spec_ids(m.widgets@).subrange(0, psl.len() as int) =~= spec_ids(gl));
        assert(spec_ids(m.widgets@).subrange(
            psl.len() as int,
            psl.len() as int + psc.len() as int,
        ) =~= spec_ids(gc));
        assert(spec_ids(m.widgets@).subrange(
            psl.len() as int + psc.len() as int,
            psl.len() as int + psc.len() as int + psr.len() as int,
        ) =~= spec_ids(gr));
    }
    Ok(slot)
}

/// An id found in a range of the clock slot's ids is owned by the
/// registry.
proof fn lemma_clock_range_in_all(reg: ModuleRegistry, a: int, b: int, id: WidgetId)
    requires
        spec_slot_ids_range(reg.clock, a, b).contains(id),
        reg.clock matches Some(m) ==> 0 <= a <= b <= spec_ids(m.widgets@).len(),
    ensures
        reg.spec_all_ids().contains(id),
{
    match reg.clock {
        Some(m) => {
            lemma_subrange_contains(spec_ids(m.widgets@), a, b, id);
            lemma_contains_concat(spec_slot_ids(reg.clock), spec_slot_ids(reg.battery), id);
            lemma_contains_concat(
                spec_slot_ids(reg.clock) + spec_slot_ids(reg.battery),
                spec_slot_ids(reg.audio),
                id,
            );
        },
        None => {},
    }
}

/// An id found in a range of the battery slot's ids is owned by the
/// registry.
proof fn lemma_battery_range_in_all(reg: ModuleRegistry, a: int, b: int, id: WidgetId)
    requires
        spec_slot_ids_range(reg.battery, a, b).contains(id),
        reg.battery matches Some(m) ==> 0 <= a <= b <= spec_ids(m.widgets@).len(),
    ensures
        reg.spec_all_ids().contains(id),
{
    match reg.battery {
        Some(m) => {
            lemma_subrange_contains(spec_ids(m.widgets@), a, b, id);
            lemma_contains_concat(spec_slot_ids(reg.clock), spec_slot_ids(reg.battery), id);
            lemma_contains_concat(
                spec_slot_ids(reg.clock) + spec_slot_ids(reg.battery),
                spec_slot_ids(reg.audio),
                id,
            );
        },
        None => {},
    }
}

/// An id found in a range of the audio slot's ids is owned by the
/// registry.
proof fn lemma_audio_range_in_all(reg: ModuleRegistry, a: int, b: int, id: WidgetId)
    requires
        spec_slot_ids_range(reg.audio, a, b).contains(id),
        reg.audio matches Some(m) ==> 0 <= a <= b <= spec_ids(m.widgets@).len(),
    ensures
        reg.spec_all_ids().contains(id),
{
    match reg.audio {
        Some(m) => {
            lemma_subrange_contains(spec_ids(m.widgets@), a, b, id);
            lemma_contains_concat(
                spec_slot_ids(reg.clock) + spec_slot_ids(reg.battery),
                spec_slot_ids(reg.audio),
                id,
            );
        },
        None => {},
    }
}

/// An id of one layout row built as three slot ranges is owned by the
/// registry.
proof fn lemma_row_in_all(
    reg: ModuleRegistry,
    row: Seq<WidgetId>,
    ca: int,
    cb: int,
    ba: int,
    bb: int,
    aa: int,
    ab: int,
    id: WidgetId,
)
    requires
        row == spec_slot_ids_range(reg.clock, ca, cb) + spec_slot_ids_range(reg.battery, ba, bb)
            + spec_slot_ids_range(reg.audio, aa, ab),
        row.contains(id),
        reg.clock matches Some(m) ==> 0 <= ca <= cb <= spec_ids(m.widgets@).len(),
        reg.battery matches Some(m) ==> 0 <= ba <= bb <= spec_ids(m.widgets@).len(),
        reg.audio matches Some(m) ==> 0 <= aa <= ab <= spec_ids(m.widgets@).len(),
    ensures
        reg.spec_all_ids().contains(id),
{
    let c = spec_slot_ids_range(reg.clock, ca, cb);
    let b = spec_slot_ids_range(reg.battery, ba, bb);
    let a = spec_slot_ids_range(reg.audio, aa, ab);
    lemma_concat_contains(c + b, a, id);
    if (c + b).contains(id) {
        lemma_concat_contains(c, b, id);
        if c.contains(id) {
            lemma_clock_range_in_all(reg, ca, cb, id);
        } else {
            lemma_battery_range_in_all(reg, ba, bb, id);
        }
    } else {
        lemma_audio_range_in_all(reg, aa, ab, id);
    }
}

impl ModuleRegistry {
    /// Build a registry from a configuration: derive the set of module
    /// kinds the placements reference, instantiate exactly those kinds,
    /// give every placed widget a fresh id and its initial state, and
    /// assemble the layout rows (for each region: the clock's widgets
    /// there, then the battery's, then the audio's, each in placement
    /// order). A placement cannot reference an unknown or unconfigured
    /// kind: the kind tags form a closed set and every kind has a
    /// configuration section. Fails only when two freshly drawn ids
    /// collide; the partial construction is then discarded, and with
    /// fewer than two placements construction always succeeds.
    pub fn new(config: ModulesConfig) -> (r: Result<ModuleRegistry, RegistryError>)
        ensures
            match r {
                Ok(reg) => {
                    &&& reg.wf()
                    &&& (reg.clock is Some <==> spec_references(config.widgets, ModuleKind::Clock))
                    &&& (reg.battery is Some <==> spec_references(
                        config.widgets,
                        ModuleKind::Battery,
                    ))
                    &&& (reg.audio is Some <==> spec_references(config.widgets, ModuleKind::Audio))
                    &&& clock_slot_ok(
                        reg.clock,
                        config.configs.clock,
                        config.widgets.left.widgets@,
                        config.widgets.center.widgets@,
                        config.widgets.right.widgets@,
                    )
                    &&& battery_slot_ok(
                        reg.battery,
                        config.configs.battery,
                        config.widgets.left.widgets@,
                        config.widgets.center.widgets@,
                        config.widgets.right.widgets@,
                    )
                    &&& audio_slot_ok(
                        reg.audio,
                        config.configs.audio,
                        config.widgets.left.widgets@,
                        config.widgets.center.widgets@,
                        config.widgets.right.widgets@,
                    )
                    &&& reg.widgets_layout.left.widget_ids@ == spec_layout_row(
                        reg,
                        config.widgets,
                        Region::Left,
                    )
                    &&& reg.widgets_layout.center.widget_ids@ == spec_layout_row(
                        reg,
                        config.widgets,
                        Region::Center,
                    )
                    &&& reg.widgets_layout.right.widget_ids@ == spec_layout_row(
                        reg,
                        config.widgets,
                        Region::Right,
                    )
                    &&& reg.widgets_layout.left.style == config.widgets.left.style
                    &&& reg.widgets_layout.center.style == config.widgets.center.style
                    &&& reg.widgets_layout.right.style == config.widgets.right.style
                },
                Err(e) => {
                    &&& e == RegistryError::DuplicateWidgetId
                    &&& config.widgets.left.widgets@.len() + config.widgets.center.widgets@.len()
                        + config.widgets.right.widgets@.len() >= 2
                },
            },
    {
        let ghost cw = config.widgets;
        let ModulesConfig { configs, widgets } = config;
        let ModuleWidgetGroupConfigs { left, center, right } = widgets;
        let ModuleWidgetGroupConfig { widgets: left_ws, style: left_style } = left;
        let ModuleWidgetGroupConfig { widgets: center_ws, style: center_style } = center;
        let ModuleWidgetGroupConfig { widgets: right_ws, style: right_style } = right;
        let mut used: Vec<WidgetId> = Vec::new();
        let mut left_ids: Vec<WidgetId> = Vec::new();
        let mut center_ids: Vec<WidgetId> = Vec::new();
        let mut right_ids: Vec<WidgetId> = Vec::new();
        let clock = match build_clock_slot(
            configs.clock,
            &left_ws,
            &center_ws,
            &right_ws,
            &mut used,
            &mut left_ids,
            &mut center_ids,
            &mut right_ids,
        ) {
            Ok(s) => s,
            Err(e) => {
                proof {
                    lemma_kind_counts_partition(left_ws@);
                    lemma_kind_counts_partition(center_ws@);
                    lemma_kind_counts_partition(right_ws@);
                }
                return Err(e);
            },
        };
        let battery = match build_battery_slot(
            configs.battery,
            &left_ws,
            &center_ws,
            &right_ws,
            &mut used,
            &mut left_ids,
            &mut center_ids,
            &mut right_ids,
        ) {
            Ok(s) => s,
            Err(e) => {
                proof {
                    lemma_kind_counts_partition(left_ws@);
                    lemma_kind_counts_partition(center_ws@);
                    lemma_kind_counts_partition(right_ws@);
                }
                return Err(e);
            },
        };
        let audio = match build_audio_slot(
            configs.audio,
            &left_ws,
            &center_ws,
            &right_ws,
            &mut used,
            &mut left_ids,
            &mut center_ids,
            &mut right_ids,
        ) {
            Ok(s) => s,
            Err(e) => {
                proof {
                    lemma_kind_counts_partition(left_ws@);
                    lemma_kind_counts_partition(center_ws@);
                    lemma_kind_counts_partition(right_ws@);
                }
                return Err(e);
            },
        };
        let reg = ModuleRegistry {
            widgets_layout: ModuleWidgetsLayout {
                left: StyledModuleWidgetRow { widget_ids: left_ids, style: left_style },
                center: StyledModuleWidgetRow { widget_ids: center_ids, style: center_style },
                right: StyledModuleWidgetRow { widget_ids: right_ids, style: right_style },
            },
            clock,
            battery,
            audio,
        };
        proof {
            let cl = spec_kind_count(cw.left.widgets@, ModuleKind::Clock) as int;
            let cc = spec_kind_count(cw.center.widgets@, ModuleKind::Clock) as int;
            let cr = spec_kind_count(cw.right.widgets@, ModuleKind::Clock) as int;
            let bl = spec_kind_count(cw.left.widgets@, ModuleKind::Battery) as int;
            let bc = spec_kind_count(cw.center.widgets@, ModuleKind::Battery) as int;
            let br = spec_kind_count(cw.right.widgets@, ModuleKind::Battery) as int;
            let al = spec_kind_count(cw.left.widgets@, ModuleKind::Audio) as int;
            let ac = spec_kind_count(cw.center.widgets@, ModuleKind::Audio) as int;
            let ar = spec_kind_count(cw.right.widgets@, ModuleKind::Audio) as int;
            assert(reg.spec_all_ids() =~= used@);
            assert(reg.widgets_layout.left.widget_ids@ =~= spec_layout_row(
                reg,
                cw,
                Region::Left,
            ));
            assert(reg.widgets_layout.center.widget_ids@ =~= spec_layout_row(
                reg,
                cw,
                Region::Center,
            ));
            assert(reg.widgets_layout.right.widget_ids@ =~= spec_layout_row(
                reg,
                cw,
                Region::Right,
            ));
            assert forall|id: WidgetId|
                reg.spec_layout_ids().contains(id) implies reg.spec_all_ids().contains(id) by {
                let lrow = reg.widgets_layout.left.widget_ids@;
                let crow = reg.widgets_layout.center.widget_ids@;
                let rrow = reg.widgets_layout.right.widget_ids@;
                lemma_concat_contains(lrow + crow, rrow, id);
                if (lrow + crow).contains(id) {
                    lemma_concat_contains(lrow, crow, id);
                    if lrow.contains(id) {
                        lemma_row_in_all(reg, lrow, 0, cl, 0, bl, 0, al, id);
                    } else {
                        lemma_row_in_all(reg, crow, cl, cl + cc, bl, bl + bc, al, al + ac, id);
                    }
                } else {
                    lemma_row_in_all(
                        reg,
                        rrow,
                        cl + cc,
                        cl + cc + cr,
                        bl + bc,
                        bl + bc + br,
                        al + ac,
                        al + ac + ar,
                        id,
                    );
                }
            }
        }
        Ok(reg)
    }
}

/// The deferred first-update jobs the host must run after the registry
/// is initialized: for each present module, in kind order, one job
/// delivering the module's update event after its configured delay.
pub open spec fn spec_after_init_tasks(reg: ModuleRegistry) -> Seq<ScheduledTask> {
    (match reg.clock {
        Some(m) => seq![
            ScheduledTask {
                delay_ms: m.info.delay_ms,
                msg: AppMsg::ModuleRegistry(
                    ModuleRegistryEvent::Module(ModuleEventTy::Clock(ClockEvent::UpdateTime)),
                ),
            },
        ],
        None => Seq::empty(),
    }) + (match reg.battery {
        Some(m) => seq![
            ScheduledTask {
                delay_ms: m.info.delay_ms,
                msg: AppMsg::ModuleRegistry(
                    ModuleRegistryEvent::Module(ModuleEventTy::Battery(BatteryEvent::Refresh)),
                ),
            },
        ],
        None => Seq::empty(),
    }) + (match reg.audio {
        Some(m) => seq![
            ScheduledTask {
                delay_ms: m.info.delay_ms,
                msg: AppMsg::ModuleRegistry(
                    ModuleRegistryEvent::Module(ModuleEventTy::Audio(AudioEvent::Refresh)),
                ),
            },
        ],
        None => Seq::empty(),
    })
}

impl ModuleRegistry {
    /// The deferred first-update jobs the host must run: one per
    /// present module, with that module's configured delay. The
    /// registry has no scheduler of its own.
    pub fn after_init_tasks(&self) -> (tasks: Vec<ScheduledTask>)
        ensures
            tasks@ == spec_after_init_tasks(*self),
    {
        let mut tasks: Vec<ScheduledTask> = Vec::new();
        if let Some(m) = &self.clock {
            tasks.push(
                ScheduledTask {
                    delay_ms: m.info.delay_ms,
                    msg: AppMsg::ModuleRegistry(
                        ModuleRegistryEvent::Module(ModuleEventTy::Clock(ClockEvent::UpdateTime)),
                    ),
                },
            );
        }
        if let Some(m) = &self.battery {
            tasks.push(
                ScheduledTask {
                    delay_ms: m.info.delay_ms,
                    msg: AppMsg::ModuleRegistry(
                        ModuleRegistryEvent::Module(ModuleEventTy::Battery(BatteryEvent::Refresh)),
                    ),
                },
            );
        }
        if let Some(m) = &self.audio {
            tasks.push(
                ScheduledTask {
                    delay_ms: m.info.delay_ms,
                    msg: AppMsg::ModuleRegistry(
                        ModuleRegistryEvent::Module(ModuleEventTy::Audio(AudioEvent::Refresh)),
                    ),
                },
            );
        }
        proof {
            assert(tasks@ =~= spec_after_init_tasks(*self));
        }
        tasks
    }
}

/// The message a clock cycle emits for `e`: none today.
pub open spec fn spec_clock_cycle_msg(e: ClockEvent) -> Option<AppMsg> {
    match e {
        ClockEvent::UpdateTime => None,
    }
}

/// The message a battery cycle emits for `e`: none today.
pub open spec fn spec_battery_cycle_msg(e: BatteryEvent) -> Option<AppMsg> {
    match e {
        BatteryEvent::Refresh => None,
        BatteryEvent::SetData(_) => None,
    }
}

/// The message an audio cycle emits for `e`: none today.
pub open spec fn spec_audio_cycle_msg(e: AudioEvent) -> Option<AppMsg> {
    match e {
        AudioEvent::Refresh => None,
        AudioEvent::SetData(_) => None,
    }
}

/// How a clock widget's update outcome is tagged into the application
/// message delivered back to the host: the widget's own event is
/// wrapped with the kind and the widget's id, a module event with the
/// kind alone.
pub open spec fn spec_route_clock_outcome(
    id: WidgetId,
    out: Option<ModuleWidgetUpdateOutput<ClockWidgetEvent, ClockEvent>>,
) -> Option<AppMsg> {
    match out {
        None => None,
        Some(ModuleWidgetUpdateOutput::Widget(e)) => Some(
            AppMsg::ModuleRegistry(ModuleRegistryEvent::Widget(id, ModuleWidgetEventTy::Clock(e))),
        ),
        Some(ModuleWidgetUpdateOutput::Module(e)) => Some(
            AppMsg::ModuleRegistry(ModuleRegistryEvent::Module(ModuleEventTy::Clock(e))),
        ),
    }
}

/// How a battery widget's update outcome is tagged, as for the clock.
pub open spec fn spec_route_battery_outcome(
    id: WidgetId,
    out: Option<ModuleWidgetUpdateOutput<BatteryWidgetEvent, BatteryEvent>>,
) -> Option<AppMsg> {
    match out {
        None => None,
        Some(ModuleWidgetUpdateOutput::Widget(e)) => Some(
            AppMsg::ModuleRegistry(
                ModuleRegistryEvent::Widget(id, ModuleWidgetEventTy::Battery(e)),
            ),
        ),
        Some(ModuleWidgetUpdateOutput::Module(e)) => Some(
            AppMsg::ModuleRegistry(ModuleRegistryEvent::Module(ModuleEventTy::Battery(e))),
        ),
    }
}

/// How an audio widget's update outcome is tagged, as for the clock.
pub open spec fn spec_route_audio_outcome(
    id: WidgetId,
    out: Option<ModuleWidgetUpdateOutput<AudioWidgetEvent, AudioEvent>>,
) -> Option<AppMsg> {
    match out {
        None => None,
        Some(ModuleWidgetUpdateOutput::Widget(e)) => Some(
            AppMsg::ModuleRegistry(ModuleRegistryEvent::Widget(id, ModuleWidgetEventTy::Audio(e))),
        ),
        Some(ModuleWidgetUpdateOutput::Module(e)) => Some(
            AppMsg::ModuleRegistry(ModuleRegistryEvent::Module(ModuleEventTy::Audio(e))),
        ),
    }
}

/// The clock slot reacted to `UpdateTime` read at instant `t`: the
/// module and every widget state take time `t` (each widget through its
/// own `SetTime` update); ids, styles, formats, the other slots and the
/// layout are untouched.
pub open spec fn clock_cycle_updated(pre: ModuleRegistry, post: ModuleRegistry, t: LocalTime) -> bool {
    &&& pre.clock is Some
    &&& post.clock is Some
    &&& post.clock.unwrap().module == (Clock { time: t })
    &&& post.clock.unwrap().info == pre.clock.unwrap().info
    &&& post.clock.unwrap().widgets@.len() == pre.clock.unwrap().widgets@.len()
    &&& forall|k: int|
        0 <= k < pre.clock.unwrap().widgets@.len() ==> {
            &&& (#[trigger] post.clock.unwrap().widgets@[k]).0 == pre.clock.unwrap().widgets@[k].0
            &&& post.clock.unwrap().widgets@[k].1.style == pre.clock.unwrap().widgets@[k].1.style
            &&& post.clock.unwrap().widgets@[k].1.state == ClockWidget::spec_update(
                pre.clock.unwrap().widgets@[k].1.state,
                ClockWidgetEvent::SetTime(t),
            )
        }
    &&& post.battery == pre.battery
    &&& post.audio == pre.audio
    &&& post.widgets_layout == pre.widgets_layout
}

/// The battery slot took the data `d`: the module and every widget
/// state hold `d`; ids, styles, the other slots and the layout are
/// untouched.
pub open spec fn battery_data_set(
    pre: ModuleRegistry,
    post: ModuleRegistry,
    d: Seq<BatteryData>,
) -> bool {
    &&& pre.battery is Some
    &&& post.battery is Some
    &&& post.battery.unwrap().module.data@ == d
    &&& post.battery.unwrap().info == pre.battery.unwrap().info
    &&& post.battery.unwrap().widgets@.len() == pre.battery.unwrap().widgets@.len()
    &&& forall|k: int|
        0 <= k < pre.battery.unwrap().widgets@.len() ==> {
            &&& (#[trigger] post.battery.unwrap().widgets@[k]).0
                == pre.battery.unwrap().widgets@[k].0
            &&& post.battery.unwrap().widgets@[k].1.style
                == pre.battery.unwrap().widgets@[k].1.style
            &&& post.battery.unwrap().widgets@[k].1.state.data@ == d
        }
    &&& post.clock == pre.clock
    &&& post.audio == pre.audio
    &&& post.widgets_layout == pre.widgets_layout
}

/// The audio slot took the snapshot `snap`: the module holds the
/// position of the default device among the snapshot's devices and each
/// device's displayable data, and every widget state mirrors the
/// module; ids, styles, the other slots and the layout are untouched.
pub open spec fn audio_data_set(
    pre: ModuleRegistry,
    post: ModuleRegistry,
    snap: AudioSnapshot,
) -> bool {
    &&& pre.audio is Some
    &&& post.audio is Some
    &&& is_first_device_index(
        snap.devices@,
        snap.default_device@,
        post.audio.unwrap().module.default,
    )
    &&& post.audio.unwrap().module.data@ == snap.devices@.map_values(
        |dv: AudioDevice| spec_audio_data(dv),
    )
    &&& post.audio.unwrap().info == pre.audio.unwrap().info
    &&& post.audio.unwrap().widgets@.len() == pre.audio.unwrap().widgets@.len()
    &&& forall|k: int|
        0 <= k < pre.audio.unwrap().widgets@.len() ==> {
            &&& (#[trigger] post.audio.unwrap().widgets@[k]).0 == pre.audio.unwrap().widgets@[k].0
            &&& post.audio.unwrap().widgets@[k].1.style == pre.audio.unwrap().widgets@[k].1.style
            &&& post.audio.unwrap().widgets@[k].1.state.default
                == post.audio.unwrap().module.default
            &&& post.audio.unwrap().widgets@[k].1.state.data@ == post.audio.unwrap().module.data@
        }
    &&& post.clock == pre.clock
    &&& post.battery == pre.battery
    &&& post.widgets_layout == pre.widgets_layout
}

/// Exactly the clock widget with id `id` reacted to `e`; every other
/// widget, the module, the other slots and the layout are untouched.
pub open spec fn clock_widget_updated(
    pre: ModuleRegistry,
    post: ModuleRegistry,
    id: WidgetId,
    e: ClockWidgetEvent,
) -> bool {
    &&& pre.clock is Some
    &&& post.clock is Some
    &&& spec_ids(pre.clock.unwrap().widgets@).contains(id)
    &&& post.clock.unwrap().module == pre.clock.unwrap().module
    &&& post.clock.unwrap().info == pre.clock.unwrap().info
    &&& post.clock.unwrap().widgets@.len() == pre.clock.unwrap().widgets@.len()
    &&& forall|k: int|
        0 <= k < pre.clock.unwrap().widgets@.len() && (#[trigger] pre.clock.unwrap().widgets@[k]).0
            == id ==> {
            &&& post.clock.unwrap().widgets@[k].0 == pre.clock.unwrap().widgets@[k].0
            &&& post.clock.unwrap().widgets@[k].1.style == pre.clock.unwrap().widgets@[k].1.style
            &&& post.clock.unwrap().widgets@[k].1.state == ClockWidget::spec_update(
                pre.clock.unwrap().widgets@[k].1.state,
                e,
            )
        }
    &&& forall|k: int|
        0 <= k < pre.clock.unwrap().widgets@.len() && (#[trigger] pre.clock.unwrap().widgets@[k]).0
            != id ==> post.clock.unwrap().widgets@[k] == pre.clock.unwrap().widgets@[k]
    &&& post.battery == pre.battery
    &&& post.audio == pre.audio
    &&& post.widgets_layout == pre.widgets_layout
}

/// Exactly the battery widget with id `id` reacted to `e`; everything
/// else is untouched.
pub open spec fn battery_widget_updated(
    pre: ModuleRegistry,
    post: ModuleRegistry,
    id: WidgetId,
    e: BatteryWidgetEvent,
) -> bool {
    &&& pre.battery is Some
    &&& post.battery is Some
    &&& spec_ids(pre.battery.unwrap().widgets@).contains(id)
    &&& post.battery.unwrap().module == pre.battery.unwrap().module
    &&& post.battery.unwrap().info == pre.battery.unwrap().info
    &&& post.battery.unwrap().widgets@.len() == pre.battery.unwrap().widgets@.len()
    &&& forall|k: int|
        0 <= k < pre.battery.unwrap().widgets@.len() && (
        #[trigger] pre.battery.unwrap().widgets@[k]).0 == id ==> {
            &&& post.battery.unwrap().widgets@[k].0 == pre.battery.unwrap().widgets@[k].0
            &&& post.battery.unwrap().widgets@[k].1.style
                == pre.battery.unwrap().widgets@[k].1.style
            &&& post.battery.unwrap().widgets@[k].1.state.data@ == BatteryWidget::spec_update(
                pre.battery.unwrap().widgets@[k].1.state,
                e,
            )
        }
    &&& forall|k: int|
        0 <= k < pre.battery.unwrap().widgets@.len() && (
        #[trigger] pre.battery.unwrap().widgets@[k]).0 != id
            ==> post.battery.unwrap().widgets@[k] == pre.battery.unwrap().widgets@[k]
    &&& post.clock == pre.clock
    &&& post.audio == pre.audio
    &&& post.widgets_layout == pre.widgets_layout
}

/// Exactly the audio widget with id `id` reacted to `e`; everything
/// else is untouched.
pub open spec fn audio_widget_updated(
    pre: ModuleRegistry,
    post: ModuleRegistry,
    id: WidgetId,
    e: AudioWidgetEvent,
) -> bool {
    &&& pre.audio is Some
    &&& post.audio is Some
    &&& spec_ids(pre.audio.unwrap().widgets@).contains(id)
    &&& post.audio.unwrap().module == pre.audio.unwrap().module
    &&& post.audio.unwrap().info == pre.audio.unwrap().info
    &&& post.audio.unwrap().widgets@.len() == pre.audio.unwrap().widgets@.len()
    &&& forall|k: int|
        0 <= k < pre.audio.unwrap().widgets@.len() && (#[trigger] pre.audio.unwrap().widgets@[k]).0
            == id ==> {
            &&& post.audio.unwrap().widgets@[k].0 == pre.audio.unwrap().widgets@[k].0
            &&& post.audio.unwrap().widgets@[k].1.style == pre.audio.unwrap().widgets@[k].1.style
            &&& (match e {
                AudioWidgetEvent::SetData(default, data) => {
                    &&& post.audio.unwrap().widgets@[k].1.state.default == default
                    &&& post.audio.unwrap().widgets@[k].1.state.data@ == data@
                },
            })
        }
    &&& forall|k: int|
        0 <= k < pre.audio.unwrap().widgets@.len() && (#[trigger] pre.audio.unwrap().widgets@[k]).0
            != id ==> post.audio.unwrap().widgets@[k] == pre.audio.unwrap().widgets@[k]
    &&& post.clock == pre.clock
    &&& post.battery == pre.battery
    &&& post.widgets_layout == pre.widgets_layout
}

/// The parts of a distinct concatenation are distinct.
proof fn lemma_distinct_split(x: Seq<WidgetId>, y: Seq<WidgetId>)
    requires
        distinct(x + y),
    ensures
        distinct(x),
        distinct(y),
{
    assert forall|i: int, j: int| 0 <= i < j < x.len() implies x[i] != x[j] by {
        assert((x + y)[i] == x[i]);
        assert((x + y)[j] == x[j]);
    }
    assert forall|i: int, j: int| 0 <= i < j < y.len() implies y[i] != y[j] by {
        assert((x + y)[x.len() + i] == y[i]);
        assert((x + y)[x.len() + j] == y[j]);
    }
}

/// The position of the first widget with id `id`, if any.
fn find_widget<S, St>(
    widgets: &Vec<(WidgetId, RegistryModuleWidgetInfo<S, St>)>,
    id: WidgetId,
) -> (r: Option<usize>)
    ensures
        match r {
            Some(j) => j < widgets@.len() && widgets@[j as int].0 == id && forall|k: int|
                0 <= k < j ==> (#[trigger] widgets@[k]).0 != id,
            None => !spec_ids(widgets@).contains(id),
        },
{
    let mut i: usize = 0;
    while i < widgets.len()
        invariant
            i <= widgets.len(),
            forall|k: int| 0 <= k < i ==> (#[trigger] widgets@[k]).0 != id,
        decreases widgets.len() - i,
    {
        if widgets[i].0 == id {
            return Some(i);
        }
        i = i + 1;
    }
    proof {
        assert forall|k: int| 0 <= k < spec_ids(widgets@).len() implies spec_ids(widgets@)[k]
            != id by {
            assert(widgets@[k].0 != id);
        }
        assert(!spec_ids(widgets@).contains(id));
    }
    None
}

impl ModuleRegistry {
    /// Route an event to the owning module or widget. A module-level
    /// event drives the module's cycle: the clock reads the current
    /// time and broadcasts it to its widgets through their own update;
    /// battery and audio store delivered data the same way. A
    /// widget-level event updates exactly the addressed widget. The
    /// returned message is exactly what the cycle or the widget update
    /// handed back, tagged only with the declared kind and id. An event
    /// addressed to an absent module or an unknown widget id is a
    /// routing error and changes nothing.
    #[verifier::rlimit(50)]
    pub fn event(&mut self, event: ModuleRegistryEvent) -> (r: Result<
        Option<AppMsg>,
        RegistryError,
    >)
        requires
            old(self).wf(),
        ensures
            final(self).wf(),
            final(self).spec_all_ids() == old(self).spec_all_ids(),
            final(self).spec_layout_ids() == old(self).spec_layout_ids(),
            match event {
                ModuleRegistryEvent::Module(me) => match me {
                    ModuleEventTy::Clock(e) => {
                        if old(self).clock is Some {
                            &&& r == Ok::<Option<AppMsg>, RegistryError>(spec_clock_cycle_msg(e))
                            &&& final(self).clock.unwrap().module.time.valid()
                            &&& clock_cycle_updated(
                                *old(self),
                                *final(self),
                                final(self).clock.unwrap().module.time,
                            )
                        } else {
                            &&& r == Err::<Option<AppMsg>, RegistryError>(
                                RegistryError::ModuleAbsent(ModuleKind::Clock),
                            )
                            &&& *final(self) == *old(self)
                        }
                    },
                    ModuleEventTy::Battery(e) => {
                        if old(self).battery is Some {
                            &&& r == Ok::<Option<AppMsg>, RegistryError>(spec_battery_cycle_msg(e))
                            &&& (match e {
                                BatteryEvent::Refresh => *final(self) == *old(self),
                                BatteryEvent::SetData(d) => battery_data_set(
                                    *old(self),
                                    *final(self),
                                    d@,
                                ),
                            })
                        } else {
                            &&& r == Err::<Option<AppMsg>, RegistryError>(
                                RegistryError::ModuleAbsent(ModuleKind::Battery),
                            )
                            &&& *final(self) == *old(self)
                        }
                    },
                    ModuleEventTy::Audio(e) => {
                        if old(self).audio is Some {
                            &&& r == Ok::<Option<AppMsg>, RegistryError>(spec_audio_cycle_msg(e))
                            &&& (match e {
                                AudioEvent::Refresh => *final(self) == *old(self),
                                AudioEvent::SetData(snap) => audio_data_set(
                                    *old(self),
                                    *final(self),
                                    snap,
                                ),
                            })
                        } else {
                            &&& r == Err::<Option<AppMsg>, RegistryError>(
                                RegistryError::ModuleAbsent(ModuleKind::Audio),
                            )
                            &&& *final(self) == *old(self)
                        }
                    },
                },
                ModuleRegistryEvent::Widget(id, we) => match we {
                    ModuleWidgetEventTy::Clock(e) => {
                        if old(self).clock is None {
                            &&& r == Err::<Option<AppMsg>, RegistryError>(
                                RegistryError::ModuleAbsent(ModuleKind::Clock),
                            )
                            &&& *final(self) == *old(self)
                        } else if !spec_ids(old(self).clock.unwrap().widgets@).contains(id) {
                            &&& r == Err::<Option<AppMsg>, RegistryError>(
                                RegistryError::UnknownWidgetId(id),
                            )
                            &&& *final(self) == *old(self)
                        } else {
                            &&& r == Ok::<Option<AppMsg>, RegistryError>(
                                spec_route_clock_outcome(id, ClockWidget::spec_outcome(e)),
                            )
                            &&& clock_widget_updated(*old(self), *final(self), id, e)
                        }
                    },
                    ModuleWidgetEventTy::Battery(e) => {
                        if old(self).battery is None {
                            &&& r == Err::<Option<AppMsg>, RegistryError>(
                                RegistryError::ModuleAbsent(ModuleKind::Battery),
                            )
                            &&& *final(self) == *old(self)
                        } else if !spec_ids(old(self).battery.unwrap().widgets@).contains(id) {
                            &&& r == Err::<Option<AppMsg>, RegistryError>(
                                RegistryError::UnknownWidgetId(id),
                            )
                            &&& *final(self) == *old(self)
                        } else {
                            &&& r == Ok::<Option<AppMsg>, RegistryError>(
                                spec_route_battery_outcome(id, BatteryWidget::spec_outcome(e)),
                            )
                            &&& battery_widget_updated(*old(self), *final(self), id, e)
                        }
                    },
                    ModuleWidgetEventTy::Audio(e) => {
                        if old(self).audio is None {
                            &&& r == Err::<Option<AppMsg>, RegistryError>(
                                RegistryError::ModuleAbsent(ModuleKind::Audio),
                            )
                            &&& *final(self) == *old(self)
                        } else if !spec_ids(old(self).audio.unwrap().widgets@).contains(id) {
                            &&& r == Err::<Option<AppMsg>, RegistryError>(
                                RegistryError::UnknownWidgetId(id),
                            )
                            &&& *final(self) == *old(self)
                        } else {
                            &&& r == Ok::<Option<AppMsg>, RegistryError>(
                                spec_route_audio_outcome(id, AudioWidget::spec_outcome(e)),
                            )
                            &&& audio_widget_updated(*old(self), *final(self), id, e)
                        }
                    },
                },
            },
    {
        match event {
            ModuleRegistryEvent::Module(me) => match me {
                ModuleEventTy::Clock(e) => {
                    let mut slot: Option<RegistryModuleInfo<Clock, ClockWidgetState, ()>> = None;
                    core::mem::swap(&mut slot, &mut self.clock);
                    match slot {
                        None => Err(RegistryError::ModuleAbsent(ModuleKind::Clock)),
                        Some(mut m) => match e {
                            ClockEvent::UpdateTime => {
                                let t = now_local();
                                m.module.time = t;
                                let ghost w0 = m.widgets@;
                                let ghost info0 = m.info;
                                let mut j: usize = 0;
                                while j < m.widgets.len()
                                    invariant
                                        j <= m.widgets@.len(),
                                        m.widgets@.len() == w0.len(),
                                        m.module == (Clock { time: t }),
                                        m.info == info0,
                                        forall|k: int|
                                            0 <= k < j ==> {
                                                &&& (#[trigger] m.widgets@[k]).0 == w0[k].0
                                                &&& m.widgets@[k].1.style == w0[k].1.style
                                                &&& m.widgets@[k].1.state
                                                    == ClockWidget::spec_update(
                                                    w0[k].1.state,
                                                    ClockWidgetEvent::SetTime(t),
                                                )
                                            },
                                        forall|k: int|
                                            j <= k < w0.len() ==> #[trigger] m.widgets@[k]
                                                == w0[k],
                                    decreases m.widgets@.len() - j,
                                {
                                    let el = &mut m.widgets[j];
                                    let _ = ClockWidget::update(
                                        &mut el.1.state,
                                        ClockWidgetEvent::SetTime(t),
                                    );
                                    j = j + 1;
                                }
                                self.clock = Some(m);
                                proof {
                                    assert(spec_ids(self.clock.unwrap().widgets@) =~= spec_ids(
                                        w0,
                                    ));
                                    assert(self.spec_all_ids() =~= old(self).spec_all_ids());
                                }
                                Ok(None)
                            },
                        },
                    }
                },
                ModuleEventTy::Battery(e) => {
                    let mut slot: Option<RegistryModuleInfo<Battery, BatteryWidgetState, ()>> =
                        None;
                    core::mem::swap(&mut slot, &mut self.battery);
                    match slot {
                        None => Err(RegistryError::ModuleAbsent(ModuleKind::Battery)),
                        Some(mut m) => match e {
                            BatteryEvent::Refresh => {
                                self.battery = Some(m);
                                Ok(None)
                            },
                            BatteryEvent::SetData(d) => {
                                m.module.data = d;
                                let ghost w0 = m.widgets@;
                                let ghost info0 = m.info;
                                let ghost mod0 = m.module;
                                let mut j: usize = 0;
                                while j < m.widgets.len()
                                    invariant
                                        j <= m.widgets@.len(),
                                        m.widgets@.len() == w0.len(),
                                        m.module == mod0,
                                        m.info == info0,
                                        forall|k: int|
                                            0 <= k < j ==> {
                                                &&& (#[trigger] m.widgets@[k]).0 == w0[k].0
                                                &&& m.widgets@[k].1.style == w0[k].1.style
                                                &&& m.widgets@[k].1.state.data@ == mod0.data@
                                            },
                                        forall|k: int|
                                            j <= k < w0.len() ==> #[trigger] m.widgets@[k]
                                                == w0[k],
                                    decreases m.widgets@.len() - j,
                                {
                                    let c = copy_vec(&m.module.data);
                                    let el = &mut m.widgets[j];
                                    let _ = BatteryWidget::update(
                                        &mut el.1.state,
                                        BatteryWidgetEvent::SetData(c),
                                    );
                                    j = j + 1;
                                }
                                self.battery = Some(m);
                                proof {
                                    assert(spec_ids(self.battery.unwrap().widgets@) =~= spec_ids(
                                        w0,
                                    ));
                                    assert(self.spec_all_ids() =~= old(self).spec_all_ids());
                                }
                                Ok(None)
                            },
                        },
                    }
                },
                ModuleEventTy::Audio(e) => {
                    let mut slot: Option<RegistryModuleInfo<Audio, AudioWidgetState, ()>> = None;
                    core::mem::swap(&mut slot, &mut self.audio);
                    match slot {
                        None => Err(RegistryError::ModuleAbsent(ModuleKind::Audio)),
                        Some(mut m) => match e {
                            AudioEvent::Refresh => {
                                self.audio = Some(m);
                                Ok(None)
                            },
                            AudioEvent::SetData(snap) => {
                                let default = first_device_index(
                                    &snap.devices,
                                    &snap.default_device,
                                );
                                let data = audio_data_list(&snap.devices);
                                m.module.default = default;
                                m.module.data = data;
                                let ghost w0 = m.widgets@;
                                let ghost info0 = m.info;
                                let ghost mod0 = m.module;
                                let mut j: usize = 0;
                                while j < m.widgets.len()
                                    invariant
                                        j <= m.widgets@.len(),
                                        m.widgets@.len() == w0.len(),
                                        m.module == mod0,
                                        m.info == info0,
                                        default == mod0.default,
                                        forall|k: int|
                                            0 <= k < j ==> {
                                                &&& (#[trigger] m.widgets@[k]).0 == w0[k].0
                                                &&& m.widgets@[k].1.style == w0[k].1.style
                                                &&& m.widgets@[k].1.state.default == mod0.default
                                                &&& m.widgets@[k].1.state.data@ == mod0.data@
                                            },
                                        forall|k: int|
                                            j <= k < w0.len() ==> #[trigger] m.widgets@[k]
                                                == w0[k],
                                    decreases m.widgets@.len() - j,
                                {
                                    let c = copy_vec(&m.module.data);
                                    let el = &mut m.widgets[j];
                                    let _ = AudioWidget::update(
                                        &mut el.1.state,
                                        AudioWidgetEvent::SetData(default, c),
                                    );
                                    j = j + 1;
                                }
                                self.audio = Some(m);
                                proof {
                                    assert(spec_ids(self.audio.unwrap().widgets@) =~= spec_ids(
                                        w0,
                                    ));
                                    assert(self.spec_all_ids() =~= old(self).spec_all_ids());
                                }
                                Ok(None)
                            },
                        },
                    }
                },
            },
            ModuleRegistryEvent::Widget(id, we) => match we {
                ModuleWidgetEventTy::Clock(e) => {
                    let mut slot: Option<RegistryModuleInfo<Clock, ClockWidgetState, ()>> = None;
                    core::mem::swap(&mut slot, &mut self.clock);
                    match slot {
                        None => Err(RegistryError::ModuleAbsent(ModuleKind::Clock)),
                        Some(mut m) => match find_widget(&m.widgets, id) {
                            None => {
                                self.clock = Some(m);
                                Err(RegistryError::UnknownWidgetId(id))
                            },
                            Some(j) => {
                                let ghost w0 = m.widgets@;
                                let el = &mut m.widgets[j];
                                let out = ClockWidget::update(&mut el.1.state, e);
                                self.clock = Some(m);
                                proof {
                                    assert(spec_ids(w0).contains(id)) by {
                                        assert(spec_ids(w0)[j as int] == id);
                                    }
                                    lemma_distinct_split(
                                        spec_slot_ids(old(self).clock) + spec_slot_ids(
                                            old(self).battery,
                                        ),
                                        spec_slot_ids(old(self).audio),
                                    );
                                    lemma_distinct_split(
                                        spec_slot_ids(old(self).clock),
                                        spec_slot_ids(old(self).battery),
                                    );
                                    assert forall|k: int|
                                        0 <= k < w0.len() && (#[trigger] w0[k]).0 == id implies k
                                        == j as int by {
                                        if k != j as int {
                                            assert(spec_ids(w0)[k] == id);
                                            assert(spec_ids(w0)[j as int] == id);
                                        }
                                    }
                                    assert(spec_ids(self.clock.unwrap().widgets@) =~= spec_ids(
                                        w0,
                                    ));
                                    assert(self.spec_all_ids() =~= old(self).spec_all_ids());
                                }
                                match out {
                                    None => Ok(None),
                                    Some(ModuleWidgetUpdateOutput::Widget(e2)) => Ok(
                                        Some(
                                            AppMsg::ModuleRegistry(
                                                ModuleRegistryEvent::Widget(
                                                    id,
                                                    ModuleWidgetEventTy::Clock(e2),
                                                ),
                                            ),
                                        ),
                                    ),
                                    Some(ModuleWidgetUpdateOutput::Module(e2)) => Ok(
                                        Some(
                                            AppMsg::ModuleRegistry(
                                                ModuleRegistryEvent::Module(
                                                    ModuleEventTy::Clock(e2),
                                                ),
                                            ),
                                        ),
                                    ),
                                }
                            },
                        },
                    }
                },
                ModuleWidgetEventTy::Battery(e) => {
                    let mut slot: Option<RegistryModuleInfo<Battery, BatteryWidgetState, ()>> =
                        None;
                    core::mem::swap(&mut slot, &mut self.battery);
                    match slot {
                        None => Err(RegistryError::ModuleAbsent(ModuleKind::Battery)),
                        Some(mut m) => match find_widget(&m.widgets, id) {
                            None => {
                                self.battery = Some(m);
                                Err(RegistryError::UnknownWidgetId(id))
                            },
                            Some(j) => {
                                let ghost w0 = m.widgets@;
                                let el = &mut m.widgets[j];
                                let out = BatteryWidget::update(&mut el.1.state, e);
                                self.battery = Some(m);
                                proof {
                                    assert(spec_ids(w0).contains(id)) by {
                                        assert(spec_ids(w0)[j as int] == id);
                                    }
                                    lemma_distinct_split(
                                        spec_slot_ids(old(self).clock) + spec_slot_ids(
                                            old(self).battery,
                                        ),
                                        spec_slot_ids(old(self).audio),
                                    );
                                    lemma_distinct_split(
                                        spec_slot_ids(old(self).clock),
                                        spec_slot_ids(old(self).battery),
                                    );
                                    assert forall|k: int|
                                        0 <= k < w0.len() && (#[trigger] w0[k]).0 == id implies k
                                        == j as int by {
                                        if k != j as int {
                                            assert(spec_ids(w0)[k] == id);
                                            assert(spec_ids(w0)[j as int] == id);
                                        }
                                    }
                                    assert(spec_ids(self.battery.unwrap().widgets@) =~= spec_ids(
                                        w0,
                                    ));
                                    assert(self.spec_all_ids() =~= old(self).spec_all_ids());
                                }
                                match out {
                                    None => Ok(None),
                                    Some(ModuleWidgetUpdateOutput::Widget(e2)) => Ok(
                                        Some(
                                            AppMsg::ModuleRegistry(
                                                ModuleRegistryEvent::Widget(
                                                    id,
                                                    ModuleWidgetEventTy::Battery(e2),
                                                ),
                                            ),
                                        ),
                                    ),
                                    Some(ModuleWidgetUpdateOutput::Module(e2)) => Ok(
                                        Some(
                                            AppMsg::ModuleRegistry(
                                                ModuleRegistryEvent::Module(
                                                    ModuleEventTy::Battery(e2),
                                                ),
                                            ),
                                        ),
                                    ),
                                }
                            },
                        },
                    }
                },
                ModuleWidgetEventTy::Audio(e) => {
                    let mut slot: Option<RegistryModuleInfo<Audio, AudioWidgetState, ()>> = None;
                    core::mem::swap(&mut slot, &mut self.audio);
                    match slot {
                        None => Err(RegistryError::ModuleAbsent(ModuleKind::Audio)),
                        Some(mut m) => match find_widget(&m.widgets, id) {
                            None => {
                                self.audio = Some(m);
                                Err(RegistryError::UnknownWidgetId(id))
                            },
                            Some(j) => {
                                let ghost w0 = m.widgets@;
                                let el = &mut m.widgets[j];
                                let out = AudioWidget::update(&mut el.1.state, e);
                                self.audio = Some(m);
                                proof {
                                    assert(spec_ids(w0).contains(id)) by {
                                        assert(spec_ids(w0)[j as int] == id);
                                    }
                                    lemma_distinct_split(
                                        spec_slot_ids(old(self).clock) + spec_slot_ids(
                                            old(self).battery,
                                        ),
                                        spec_slot_ids(old(self).audio),
                                    );
                                    assert forall|k: int|
                                        0 <= k < w0.len() && (#[trigger] w0[k]).0 == id implies k
                                        == j as int by {
                                        if k != j as int {
                                            assert(spec_ids(w0)[k] == id);
                                            assert(spec_ids(w0)[j as int] == id);
                                        }
                                    }
                                    assert(spec_ids(self.audio.unwrap().widgets@) =~= spec_ids(
                                        w0,
                                    ));
                                    assert(self.spec_all_ids() =~= old(self).spec_all_ids());
                                }
                                match out {
                                    None => Ok(None),
                                    Some(ModuleWidgetUpdateOutput::Widget(e2)) => Ok(
                                        Some(
                                            AppMsg::ModuleRegistry(
                                                ModuleRegistryEvent::Widget(
                                                    id,
                                                    ModuleWidgetEventTy::Audio(e2),
                                                ),
                                            ),
                                        ),
                                    ),
                                    Some(ModuleWidgetUpdateOutput::Module(e2)) => Ok(
                                        Some(
                                            AppMsg::ModuleRegistry(
                                                ModuleRegistryEvent::Module(
                                                    ModuleEventTy::Audio(e2),
                                                ),
                                            ),
                                        ),
                                    ),
                                }
                            },
                        },
                    }
                },
            },
        }
    }
}

/// The message the host delivers after routing an event: the routed
/// message itself, or the routing error as a notification. Errors are
/// converted to messages at this boundary, so no failure escapes a
/// scheduled job.
pub fn notify_or_message(r: Result<Option<AppMsg>, RegistryError>) -> (m: Option<AppMsg>)
    ensures
        match r {
            Ok(msg) => m == msg,
            Err(e) => m matches Some(AppMsg::NotifyError(s)) && s@ == e.spec_message(),
        },
{
    match r {
        Ok(msg) => msg,
        Err(e) => Some(AppMsg::NotifyError(e.message())),
    }
}

/// The state of the first widget with id `id`, if any.
pub open spec fn spec_lookup<S, St>(
    widgets: Seq<(WidgetId, RegistryModuleWidgetInfo<S, St>)>,
    id: WidgetId,
) -> Option<S>
    decreases widgets.len(),
{
    if widgets.len() == 0 {
        None
    } else if widgets[0].0 == id {
        Some(widgets[0].1.state)
    } else {
        spec_lookup(widgets.drop_first(), id)
    }
}

/// The state of the first widget with id `id` in a slot, if any.
pub open spec fn spec_slot_lookup<M, S, St>(
    slot: Option<RegistryModuleInfo<M, S, St>>,
    id: WidgetId,
) -> Option<S> {
    match slot {
        Some(m) => spec_lookup(m.widgets@, id),
        None => None,
    }
}

/// The lookup finds the state at the first position holding `id`.
proof fn lemma_lookup_at<S, St>(
    widgets: Seq<(WidgetId, RegistryModuleWidgetInfo<S, St>)>,
    id: WidgetId,
    j: int,
)
    requires
        0 <= j < widgets.len(),
        widgets[j].0 == id,
        forall|k: int| 0 <= k < j ==> (#[trigger] widgets[k]).0 != id,
    ensures
        spec_lookup(widgets, id) == Some(widgets[j].1.state),
    decreases j,
{
    if j > 0 {
        lemma_lookup_at(widgets.drop_first(), id, j - 1);
    }
}

/// The lookup finds nothing when no widget holds `id`.
proof fn lemma_lookup_none<S, St>(
    widgets: Seq<(WidgetId, RegistryModuleWidgetInfo<S, St>)>,
    id: WidgetId,
)
    requires
        !spec_ids(widgets).contains(id),
    ensures
        spec_lookup(widgets, id) is None,
    decreases widgets.len(),
{
    if widgets.len() > 0 {
        assert(widgets[0].0 != id) by {
            if widgets[0].0 == id {
                assert(spec_ids(widgets)[0] == id);
            }
        }
        assert(!spec_ids(widgets.drop_first()).contains(id)) by {
            if spec_ids(widgets.drop_first()).contains(id) {
                let k = choose|k: int|
                    0 <= k < spec_ids(widgets.drop_first()).len() && spec_ids(
                        widgets.drop_first(),
                    )[k] == id;
                assert(spec_ids(widgets)[k + 1] == id);
            }
        }
        lemma_lookup_none(widgets.drop_first(), id);
    }
}

/// One glyph span of a battery widget: the battery's icon and its
/// charge percentage.
pub open spec fn spec_battery_span(d: BatteryData) -> GlyphSpanV {
    GlyphSpanV {
        icon: Icon::Battery(crate::module::battery::spec_battery_glyph(d)),
        text: crate::fmt::spec_percent(d.level as nat),
    }
}

/// What a clock widget renders: a button showing the formatted time;
/// pressing it sends `SwitchFormat` back to this widget.
pub open spec fn spec_clock_widget_render(id: WidgetId, st: ClockWidgetState) -> WidgetRenderV {
    WidgetRenderV {
        kind: ModuleKind::Clock,
        id,
        node: RenderNodeV::Button {
            text: crate::module::clock::spec_clock_text(st.format, st.time),
            on_press: AppMsg::ModuleRegistry(
                ModuleRegistryEvent::Widget(
                    id,
                    ModuleWidgetEventTy::Clock(ClockWidgetEvent::SwitchFormat),
                ),
            ),
        },
    }
}

/// The glyph spans for a sequence of batteries' data.
pub open spec fn spec_battery_spans(data: Seq<BatteryData>) -> Seq<GlyphSpanV> {
    data.map_values(|d: BatteryData| spec_battery_span(d))
}

/// What a battery widget renders: one glyph span per battery.
pub open spec fn spec_battery_widget_render(id: WidgetId, st: BatteryWidgetState) -> WidgetRenderV {
    WidgetRenderV {
        kind: ModuleKind::Battery,
        id,
        node: RenderNodeV::Glyphs(spec_battery_spans(st.data@)),
    }
}

/// The device an audio widget displays: the default one, or a muted
/// placeholder when none is known.
pub open spec fn spec_audio_display(st: AudioWidgetState) -> crate::module::audio::AudioData {
    match st.default {
        Some(i) => if i < st.data@.len() {
            st.data@[i as int]
        } else {
            crate::module::audio::AudioData { icon: crate::module::audio::AudioGlyph::Off, volume: 0 }
        },
        None => crate::module::audio::AudioData {
            icon: crate::module::audio::AudioGlyph::Off,
            volume: 0,
        },
    }
}

/// What an audio widget renders: the displayed device's icon and
/// volume percentage.
pub open spec fn spec_audio_widget_render(id: WidgetId, st: AudioWidgetState) -> WidgetRenderV {
    WidgetRenderV {
        kind: ModuleKind::Audio,
        id,
        node: RenderNodeV::Glyphs(
            seq![
                GlyphSpanV {
                    icon: Icon::Audio(spec_audio_display(st).icon),
                    text: crate::fmt::spec_percent(spec_audio_display(st).volume as nat),
                },
            ],
        ),
    }
}

/// What the widget with id `id` renders, looking the id up in the
/// slots in kind order; nothing if no module owns the id.
pub open spec fn spec_render_widget(reg: ModuleRegistry, id: WidgetId) -> Option<WidgetRenderV> {
    match spec_slot_lookup(reg.clock, id) {
        Some(st) => Some(spec_clock_widget_render(id, st)),
        None => match spec_slot_lookup(reg.battery, id) {
            Some(st) => Some(spec_battery_widget_render(id, st)),
            None => match spec_slot_lookup(reg.audio, id) {
                Some(st) => Some(spec_audio_widget_render(id, st)),
                None => None,
            },
        },
    }
}

/// The renderings of the widgets with the given ids, in order; ids no
/// module owns are skipped.
pub open spec fn spec_render_row(reg: ModuleRegistry, ids: Seq<WidgetId>) -> Seq<WidgetRenderV>
    decreases ids.len(),
{
    if ids.len() == 0 {
        Seq::empty()
    } else {
        let rest = spec_render_row(reg, ids.drop_last());
        match spec_render_widget(reg, ids.last()) {
            Some(w) => rest.push(w),
            None => rest,
        }
    }
}

/// The whole bar's rendering: one group per non-empty region, in left,
/// center, right order, each with its configured group style.
pub open spec fn spec_view(reg: ModuleRegistry) -> RenderTreeV {
    let l = reg.widgets_layout.left.widget_ids@;
    let c = reg.widgets_layout.center.widget_ids@;
    let r = reg.widgets_layout.right.widget_ids@;
    RenderTreeV {
        groups: (if l.len() > 0 {
            seq![
                RenderGroupV {
                    region: Region::Left,
                    style: reg.widgets_layout.left.style,
                    widgets: spec_render_row(reg, l),
                },
            ]
        } else {
            Seq::empty()
        }) + (if c.len() > 0 {
            seq![
                RenderGroupV {
                    region: Region::Center,
                    style: reg.widgets_layout.center.style,
                    widgets: spec_render_row(reg, c),
                },
            ]
        } else {
            Seq::empty()
        }) + (if r.len() > 0 {
            seq![
                RenderGroupV {
                    region: Region::Right,
                    style: reg.widgets_layout.right.style,
                    widgets: spec_render_row(reg, r),
                },
            ]
        } else {
            Seq::empty()
        }),
    }
}

impl ModuleRegistry {
    /// What the widget with id `id` renders, if any module owns it.
    fn render_widget(&self, id: WidgetId) -> (r: Option<WidgetRender>)
        ensures
            match r {
                Some(w) => spec_render_widget(*self, id) == Some(w@),
                None => spec_render_widget(*self, id) is None,
            },
    {
        if let Some(m) = &self.clock {
            match find_widget(&m.widgets, id) {
                Some(j) => {
                    proof {
                        lemma_lookup_at(m.widgets@, id, j as int);
                    }
                    let st = m.widgets[j].1.state;
                    let text = clock_text(st.format, st.time);
                    return Some(
                        WidgetRender {
                            kind: ModuleKind::Clock,
                            id,
                            node: RenderNode::Button {
                                text,
                                on_press: AppMsg::ModuleRegistry(
                                    ModuleRegistryEvent::Widget(
                                        id,
                                        ModuleWidgetEventTy::Clock(ClockWidgetEvent::SwitchFormat),
                                    ),
                                ),
                            },
                        },
                    );
                },
                None => {
                    proof {
                        lemma_lookup_none(m.widgets@, id);
                    }
                },
            }
        }
        if let Some(m) = &self.battery {
            match find_widget(&m.widgets, id) {
                Some(j) => {
                    proof {
                        lemma_lookup_at(m.widgets@, id, j as int);
                    }
                    let st = &m.widgets[j].1.state;
                    let mut spans: Vec<GlyphSpan> = Vec::new();
                    let mut k: usize = 0;
                    while k < st.data.len()
                        invariant
                            k <= st.data@.len(),
                            spans@.len() == k as int,
                            span_views(spans@) =~= spec_battery_spans(st.data@.take(k as int)),
                        decreases st.data@.len() - k,
                    {
                        let ghost spans0 = spans@;
                        let d = st.data[k];
                        spans.push(
                            GlyphSpan {
                                icon: Icon::Battery(crate::module::battery::battery_glyph(d)),
                                text: crate::fmt::percent_string(d.level),
                            },
                        );
                        k = k + 1;
                        proof {
                            let post = st.data@.take(k as int);
                            assert forall|i: int| 0 <= i < k as int implies span_views(spans@)[i]
                                =~~= spec_battery_spans(post)[i] by {
                                assert(span_views(spans@)[i] == spans@[i]@);
                                assert(spec_battery_spans(post)[i] == spec_battery_span(post[i]));
                                assert(post[i] == st.data@[i]);
                                if i < k as int - 1 {
                                    assert(spans@[i] == spans0[i]);
                                    assert(span_views(spans0)[i] == spans0[i]@);
                                    assert(spec_battery_spans(st.data@.take(k as int - 1))[i]
                                        == spec_battery_span(st.data@.take(k as int - 1)[i]));
                                } else {
                                    assert(spans@[i]@ =~~= spec_battery_span(st.data@[i]));
                                }
                            }
                            assert(span_views(spans@) =~~= spec_battery_spans(post));
                        }
                    }
                    proof {
                        assert(st.data@.take(st.data@.len() as int) =~= st.data@);
                        assert(span_views(spans@) =~~= spec_battery_spans(st.data@));
                    }
                    let w = WidgetRender {
                        kind: ModuleKind::Battery,
                        id,
                        node: RenderNode::Glyphs(spans),
                    };
                    proof {
                        assert(w@ == spec_battery_widget_render(id, m.widgets@[j as int].1.state));
                    }
                    return Some(w);
                },
                None => {
                    proof {
                        lemma_lookup_none(m.widgets@, id);
                    }
                },
            }
        }
        if let Some(m) = &self.audio {
            match find_widget(&m.widgets, id) {
                Some(j) => {
                    proof {
                        lemma_lookup_at(m.widgets@, id, j as int);
                    }
                    let st = &m.widgets[j].1.state;
                    let shown = match st.default {
                        Some(i) => if i < st.data.len() {
                            st.data[i]
                        } else {
                            AudioData::unknown()
                        },
                        None => AudioData::unknown(),
                    };
                    let mut spans: Vec<GlyphSpan> = Vec::new();
                    spans.push(
                        GlyphSpan {
                            icon: Icon::Audio(shown.icon),
                            text: crate::fmt::percent_string(shown.volume),
                        },
                    );
                    let w = WidgetRender {
                        kind: ModuleKind::Audio,
                        id,
                        node: RenderNode::Glyphs(spans),
                    };
                    proof {
                        assert(span_views(spans@) =~~= seq![
                            GlyphSpanV {
                                icon: Icon::Audio(shown.icon),
                                text: crate::fmt::spec_percent(shown.volume as nat),
                            },
                        ]);
                        assert(w@ == spec_audio_widget_render(id, m.widgets@[j as int].1.state));
                    }
                    return Some(w);
                },
                None => {
                    proof {
                        lemma_lookup_none(m.widgets@, id);
                    }
                },
            }
        }
        None
    }

    /// Render one region's group from its layout row.
    fn render_row(&self, row: &StyledModuleWidgetRow, region: Region) -> (g: RenderGroup)
        ensures
            g@ == (RenderGroupV {
                region,
                style: row.style,
                widgets: spec_render_row(*self, row.widget_ids@),
            }),
    {
        let ids = &row.widget_ids;
        let mut widgets: Vec<WidgetRender> = Vec::new();
        let mut i: usize = 0;
        while i < ids.len()
            invariant
                i <= ids@.len(),
                widget_render_views(widgets@) =~= spec_render_row(*self, ids@.take(i as int)),
            decreases ids@.len() - i,
        {
            proof {
                assert(ids@.take(i as int + 1).drop_last() =~= ids@.take(i as int));
                assert(ids@.take(i as int + 1).last() == ids@[i as int]);
            }
            match self.render_widget(ids[i]) {
                Some(w) => {
                    widgets.push(w);
                },
                None => {},
            }
            i = i + 1;
            proof {
                assert(widget_render_views(widgets@) =~~= spec_render_row(
                    *self,
                    ids@.take(i as int),
                ));
            }
        }
        proof {
            assert(ids@.take(ids@.len() as int) =~= ids@);
        }
        RenderGroup { region, style: row.style, widgets }
    }

    /// Render the bar: walk the three regions in order and render each
    /// region that shows at least one widget; empty regions are
    /// omitted. Rendering reads the registry and mutates nothing, so
    /// two renders of one registry value are identical.
    pub fn view(&self) -> (t: RenderTree)
        ensures
            t@ == spec_view(*self),
    {
        let mut groups: Vec<RenderGroup> = Vec::new();
        if self.widgets_layout.left.widget_ids.len() > 0 {
            let g = self.render_row(&self.widgets_layout.left, Region::Left);
            groups.push(g);
        }
        if self.widgets_layout.center.widget_ids.len() > 0 {
            let g = self.render_row(&self.widgets_layout.center, Region::Center);
            groups.push(g);
        }
        if self.widgets_layout.right.widget_ids.len() > 0 {
            let g = self.render_row(&self.widgets_layout.right, Region::Right);
            groups.push(g);
        }
        let t = RenderTree { groups };
        proof {
            assert(t@.groups =~= spec_view(*self).groups);
            assert(t@ =~= spec_view(*self));
        }
        t
    }
}

} // verus!
