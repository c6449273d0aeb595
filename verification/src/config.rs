//! The serializable configuration model: one section per module kind,
//! plus the placed widgets of the three screen regions with their group
//! styles. The concrete file syntax is the host's concern; this is the
//! value the registry is built from.

use vstd::prelude::*;

use crate::module::clock::{ClockConfig, ClockFormat, ClockWidgetConfig};
use crate::module::{ModuleConfig, ModuleKind, ModuleWidgetConfig, NoConfig};

verus! {

/// An RGBA color with eight bits per channel.
#[derive(Clone, Copy, Debug, PartialEq, Eq, Structural)]
pub struct Rgba {
    pub red: u8,
    pub green: u8,
    pub blue: u8,
    pub alpha: u8,
}

/// The border drawn around a widget group, in whole pixels.
#[derive(Clone, Copy, Debug, PartialEq, Eq, Structural)]
pub struct BorderStyle {
    pub width: Option<u32>,
    pub color: Option<Rgba>,
    pub radius: Option<u32>,
}

/// Group-level styling for one screen region, in whole pixels.
#[derive(Clone, Copy, Debug, PartialEq, Eq, Structural)]
pub struct ModuleWidgetGroupStyle {
    pub padding: u32,
    pub spacing: u32,
    pub border: Option<BorderStyle>,
    pub background_color: Option<Rgba>,
}

/// The group style used when the configuration gives none.
pub open spec fn spec_default_group_style() -> ModuleWidgetGroupStyle {
    ModuleWidgetGroupStyle { padding: 5, spacing: 5, border: None, background_color: None }
}

impl Default for ModuleWidgetGroupStyle {
    fn default() -> (r: Self)
        ensures
            r == spec_default_group_style(),
    {
        ModuleWidgetGroupStyle { padding: 5, spacing: 5, border: None, background_color: None }
    }
}

/// Per-module metadata independent of the module kind: the delay before
/// the module's first scheduled update.
#[derive(Clone, Copy, Debug, PartialEq, Eq, Structural)]
pub struct GenericModuleInfo {
    pub delay_ms: u64,
}

/// The metadata used when the configuration gives none: a first update
/// after five hundred milliseconds.
pub open spec fn spec_default_info() -> GenericModuleInfo {
    GenericModuleInfo { delay_ms: 500 }
}

impl Default for GenericModuleInfo {
    fn default() -> (r: Self)
        ensures
            r == spec_default_info(),
    {
        GenericModuleInfo { delay_ms: 500 }
    }
}

/// One module's configuration section: the generic metadata plus the
/// kind-specific configuration.
#[derive(Clone, Copy, Debug)]
pub struct GenericModuleConfig<C> where C: ModuleConfig {
    pub info: GenericModuleInfo,
    pub config: C,
}

/// One configuration section per module kind.
#[derive(Clone, Copy, Debug)]
pub struct ModuleConfigCollection {
    pub clock: GenericModuleConfig<ClockConfig>,
    pub battery: GenericModuleConfig<NoConfig>,
    pub audio: GenericModuleConfig<NoConfig>,
}

impl Default for ModuleConfigCollection {
    fn default() -> (r: Self)
        ensures
            r.clock.info == spec_default_info(),
            r.clock.config == ClockConfig,
            r.battery.info == spec_default_info(),
            r.battery.config == NoConfig,
            r.audio.info == spec_default_info(),
            r.audio.config == NoConfig,
    {
        ModuleConfigCollection {
            clock: GenericModuleConfig {
                info: GenericModuleInfo { delay_ms: 500 },
                config: ClockConfig,
            },
            battery: GenericModuleConfig {
                info: GenericModuleInfo { delay_ms: 500 },
                config: NoConfig,
            },
            audio: GenericModuleConfig {
                info: GenericModuleInfo { delay_ms: 500 },
                config: NoConfig,
            },
        }
    }
}

/// A placed widget's configuration together with its optional style.
#[derive(Debug)]
pub struct StyledModuleWidgetConfig<C> where C: ModuleWidgetConfig {
    pub config: C,
    pub style: Option<C::Style>,
}

/// A placed widget's configuration, tagged by module kind.
#[derive(Debug)]
pub enum ModuleWidgetConfigTy {
    Clock(StyledModuleWidgetConfig<ClockWidgetConfig>),
    Battery(StyledModuleWidgetConfig<NoConfig>),
    Audio(StyledModuleWidgetConfig<NoConfig>),
}

impl ModuleWidgetConfigTy {
    /// The module kind this placement references.
    pub open spec fn spec_kind(self) -> ModuleKind {
        match self {
            ModuleWidgetConfigTy::Clock(_) => ModuleKind::Clock,
            ModuleWidgetConfigTy::Battery(_) => ModuleKind::Battery,
            ModuleWidgetConfigTy::Audio(_) => ModuleKind::Audio,
        }
    }

    /// The module kind this placement references.
    pub fn kind(&self) -> (k: ModuleKind)
        ensures
            k == self.spec_kind(),
    {
        match self {
            ModuleWidgetConfigTy::Clock(_) => ModuleKind::Clock,
            ModuleWidgetConfigTy::Battery(_) => ModuleKind::Battery,
            ModuleWidgetConfigTy::Audio(_) => ModuleKind::Audio,
        }
    }
}

/// The placed widgets of one screen region, in display order, and the
/// region's group style.
#[derive(Debug)]
pub struct ModuleWidgetGroupConfig {
    pub widgets: Vec<ModuleWidgetConfigTy>,
    pub style: ModuleWidgetGroupStyle,
}

impl Default for ModuleWidgetGroupConfig {
    fn default() -> (r: Self)
        ensures
            r.widgets@ == Seq::<ModuleWidgetConfigTy>::empty(),
            r.style == spec_default_group_style(),
    {
        ModuleWidgetGroupConfig {
            widgets: Vec::new(),
            style: ModuleWidgetGroupStyle {
                padding: 5,
                spacing: 5,
                border: None,
                background_color: None,
            },
        }
    }
}

/// The placed widgets of the three screen regions.
#[derive(Debug)]
pub struct ModuleWidgetGroupConfigs {
    pub left: ModuleWidgetGroupConfig,
    pub center: ModuleWidgetGroupConfig,
    pub right: ModuleWidgetGroupConfig,
}

/// The one placement configured out of the box: a clock, centered,
/// in the default format, with no widget style.
pub open spec fn spec_default_center_placement() -> ModuleWidgetConfigTy {
    ModuleWidgetConfigTy::Clock(
        StyledModuleWidgetConfig {
            config: ClockWidgetConfig { format: ClockFormat::DD_MM_YYYY_HH_MM_SS },
            style: None,
        },
    )
}

impl Default for ModuleWidgetGroupConfigs {
    fn default() -> (r: Self)
        ensures
            r.left.widgets@ == Seq::<ModuleWidgetConfigTy>::empty(),
            r.center.widgets@ =~= seq![spec_default_center_placement()],
            r.right.widgets@ == Seq::<ModuleWidgetConfigTy>::empty(),
            r.left.style == spec_default_group_style(),
            r.center.style == spec_default_group_style(),
            r.right.style == spec_default_group_style(),
    {
        let mut center_widgets: Vec<ModuleWidgetConfigTy> = Vec::new();
        center_widgets.push(
            ModuleWidgetConfigTy::Clock(
                StyledModuleWidgetConfig {
                    config: ClockWidgetConfig { format: ClockFormat::DD_MM_YYYY_HH_MM_SS },
                    style: None,
                },
            ),
        );
        ModuleWidgetGroupConfigs {
            left: ModuleWidgetGroupConfig::default(),
            center: ModuleWidgetGroupConfig {
                widgets: center_widgets,
                style: ModuleWidgetGroupStyle::default(),
            },
            right: ModuleWidgetGroupConfig::default(),
        }
    }
}

/// The serializable root: the per-kind configuration sections plus the
/// widget placements.
#[derive(Debug)]
pub struct ModulesConfig {
    pub configs: ModuleConfigCollection,
    pub widgets: ModuleWidgetGroupConfigs,
}

impl Default for ModulesConfig {
    fn default() -> (r: Self)
        ensures
            r.configs.clock.info == spec_default_info(),
            r.configs.clock.config == ClockConfig,
            r.configs.battery.info == spec_default_info(),
            r.configs.battery.config == NoConfig,
            r.configs.audio.info == spec_default_info(),
            r.configs.audio.config == NoConfig,
            r.widgets.left.widgets@ == Seq::<ModuleWidgetConfigTy>::empty(),
            r.widgets.center.widgets@ =~= seq![spec_default_center_placement()],
            r.widgets.right.widgets@ == Seq::<ModuleWidgetConfigTy>::empty(),
            r.widgets.left.style == spec_default_group_style(),
            r.widgets.center.style == spec_default_group_style(),
            r.widgets.right.style == spec_default_group_style(),
    {
        ModulesConfig {
            configs: ModuleConfigCollection::default(),
            widgets: ModuleWidgetGroupConfigs::default(),
        }
    }
}

/// The application-level configuration: bar placement and size, plus
/// the module configuration.
#[derive(Debug)]
pub struct Config {
    pub top: bool,
    pub size: (u32, u32),
    pub modules: ModulesConfig,
}

impl Default for Config {
    fn default() -> (r: Self)
        ensures
            r.top == true,
            r.size == (900u32, 50u32),
            r.modules.configs.clock.info == spec_default_info(),
            r.modules.configs.clock.config == ClockConfig,
            r.modules.configs.battery.info == spec_default_info(),
            r.modules.configs.battery.config == NoConfig,
            r.modules.configs.audio.info == spec_default_info(),
            r.modules.configs.audio.config == NoConfig,
            r.modules.widgets.left.widgets@ == Seq::<ModuleWidgetConfigTy>::empty(),
            r.modules.widgets.center.widgets@ =~= seq![spec_default_center_placement()],
            r.modules.widgets.right.widgets@ == Seq::<ModuleWidgetConfigTy>::empty(),
            r.modules.widgets.left.style == spec_default_group_style(),
            r.modules.widgets.center.style == spec_default_group_style(),
            r.modules.widgets.right.style == spec_default_group_style(),
    {
        Config { top: true, size: (900, 50), modules: ModulesConfig::default() }
    }
}

} // verus!
