use rbar::config::{
    Config, GenericModuleInfo, ModuleConfigCollection, ModuleWidgetConfigTy,
    ModuleWidgetGroupConfig, ModuleWidgetGroupConfigs, ModuleWidgetGroupStyle, ModulesConfig,
    StyledModuleWidgetConfig,
};
use rbar::events::{AppMsg, ModuleEventTy, ModuleRegistryEvent, ModuleWidgetEventTy};
use rbar::ids::WidgetId;
use rbar::module::audio::{AudioDevice, AudioEvent, AudioGlyph, AudioSnapshot};
use rbar::module::battery::{BatteryData, BatteryEvent, BatteryFill, BatteryState};
use rbar::module::clock::{clock_text, ClockEvent, ClockFormat, ClockWidgetConfig, ClockWidgetEvent};
use rbar::module::{ModuleKind, NoConfig};
use rbar::registry::{ModuleRegistry, RegistryError};
use rbar::render::{Icon, Region, RenderNode, RenderTree};

fn clock_placement(format: ClockFormat) -> ModuleWidgetConfigTy {
    ModuleWidgetConfigTy::Clock(
        StyledModuleWidgetConfig { config: ClockWidgetConfig { format }, style: None },
    )
}

fn battery_placement() -> ModuleWidgetConfigTy {
    ModuleWidgetConfigTy::Battery(StyledModuleWidgetConfig { config: NoConfig, style: None })
}

fn audio_placement() -> ModuleWidgetConfigTy {
    ModuleWidgetConfigTy::Audio(StyledModuleWidgetConfig { config: NoConfig, style: None })
}

fn group(widgets: Vec<ModuleWidgetConfigTy>) -> ModuleWidgetGroupConfig {
    ModuleWidgetGroupConfig { widgets, style: ModuleWidgetGroupStyle::default() }
}

fn config(
    left: Vec<ModuleWidgetConfigTy>,
    center: Vec<ModuleWidgetConfigTy>,
    right: Vec<ModuleWidgetConfigTy>,
) -> ModulesConfig {
    ModulesConfig {
        configs: ModuleConfigCollection::default(),
        widgets: ModuleWidgetGroupConfigs { left: group(left), center: group(center), right: group(
            right,
        ) },
    }
}

fn all_ids(reg: &ModuleRegistry) -> Vec<WidgetId> {
    let mut ids = vec![];
    if let Some(m) = &reg.clock {
        for (id, _) in &m.widgets {
            ids.push(*id);
        }
    }
    if let Some(m) = &reg.battery {
        for (id, _) in &m.widgets {
            ids.push(*id);
        }
    }
    if let Some(m) = &reg.audio {
        for (id, _) in &m.widgets {
            ids.push(*id);
        }
    }
    ids
}

fn msgs_eq(a: &AppMsg, b: &AppMsg) -> bool {
    match (a, b) {
        (AppMsg::NotifyError(x), AppMsg::NotifyError(y)) => x == y,
        (AppMsg::ModuleRegistry(x), AppMsg::ModuleRegistry(y)) => {
            format!("{x:?}") == format!("{y:?}")
        },
        _ => false,
    }
}

fn trees_eq(a: &RenderTree, b: &RenderTree) -> bool {
    if a.groups.len() != b.groups.len() {
        return false;
    }
    for (ga, gb) in a.groups.iter().zip(b.groups.iter()) {
        if ga.region != gb.region || ga.style != gb.style {
            return false;
        }
        if ga.widgets.len() != gb.widgets.len() {
            return false;
        }
        for (wa, wb) in ga.widgets.iter().zip(gb.widgets.iter()) {
            if wa.kind != wb.kind || wa.id != wb.id {
                return false;
            }
            match (&wa.node, &wb.node) {
                (
                    RenderNode::Button { text: ta, on_press: pa },
                    RenderNode::Button { text: tb, on_press: pb },
                ) => {
                    if ta != tb || !msgs_eq(pa, pb) {
                        return false;
                    }
                },
                (RenderNode::Glyphs(sa), RenderNode::Glyphs(sb)) => {
                    if sa.len() != sb.len() {
                        return false;
                    }
                    for (xa, xb) in sa.iter().zip(sb.iter()) {
                        if xa.icon != xb.icon || xa.text != xb.text {
                            return false;
                        }
                    }
                },
                _ => return false,
            }
        }
    }
    true
}

#[test]
fn referenced_kinds_become_present_slots() {
    let reg = ModuleRegistry::new(
        config(
            vec![clock_placement(ClockFormat::HH_MM), battery_placement()],
            vec![clock_placement(ClockFormat::HH_MM_SS), audio_placement()],
            vec![battery_placement()],
        ),
    ).unwrap();
    assert!(reg.clock.is_some());
    assert!(reg.battery.is_some());
    assert!(reg.audio.is_some());
    assert_eq!(all_ids(&reg).len(), 5);
    assert_eq!(reg.widgets_layout.left.widget_ids.len(), 2);
    assert_eq!(reg.widgets_layout.center.widget_ids.len(), 2);
    assert_eq!(reg.widgets_layout.right.widget_ids.len(), 1);
}

#[test]
fn empty_config_builds_an_empty_registry() {
    let reg = ModuleRegistry::new(config(vec![], vec![], vec![])).unwrap();
    assert!(reg.clock.is_none());
    assert!(reg.battery.is_none());
    assert!(reg.audio.is_none());
    assert_eq!(all_ids(&reg).len(), 0);
    assert_eq!(reg.after_init_tasks().len(), 0);
    assert_eq!(reg.view().groups.len(), 0);
}

#[test]
fn unreferenced_kinds_stay_absent() {
    let reg = ModuleRegistry::new(
        config(vec![], vec![clock_placement(ClockFormat::HH_MM)], vec![]),
    ).unwrap();
    assert!(reg.clock.is_some());
    assert!(reg.battery.is_none());
    assert!(reg.audio.is_none());
}

#[test]
fn widget_ids_are_pairwise_distinct() {
    let reg = ModuleRegistry::new(
        config(
            vec![clock_placement(ClockFormat::HH_MM), battery_placement(), audio_placement()],
            vec![clock_placement(ClockFormat::HH_MM_SS), battery_placement()],
            vec![clock_placement(ClockFormat::DD_MM_YY_HH_MM)],
        ),
    ).unwrap();
    let ids = all_ids(&reg);
    assert_eq!(ids.len(), 6);
    for i in 0..ids.len() {
        for j in 0..ids.len() {
            if i != j {
                assert_ne!(ids[i], ids[j]);
            }
        }
    }
}

#[test]
fn layout_rows_group_by_kind_in_placement_order() {
    let reg = ModuleRegistry::new(
        config(
            vec![clock_placement(ClockFormat::HH_MM), battery_placement()],
            vec![clock_placement(ClockFormat::HH_MM_SS), audio_placement()],
            vec![battery_placement()],
        ),
    ).unwrap();
    let clock = reg.clock.as_ref().unwrap();
    let battery = reg.battery.as_ref().unwrap();
    let audio = reg.audio.as_ref().unwrap();
    assert_eq!(clock.widgets.len(), 2);
    assert_eq!(battery.widgets.len(), 2);
    assert_eq!(audio.widgets.len(), 1);
    assert_eq!(
        reg.widgets_layout.left.widget_ids,
        vec![clock.widgets[0].0, battery.widgets[0].0],
    );
    assert_eq!(
        reg.widgets_layout.center.widget_ids,
        vec![clock.widgets[1].0, audio.widgets[0].0],
    );
    assert_eq!(reg.widgets_layout.right.widget_ids, vec![battery.widgets[1].0]);
}

#[test]
fn single_centered_clock_scenario() {
    let reg = ModuleRegistry::new(
        config(vec![], vec![clock_placement(ClockFormat::HH_MM)], vec![]),
    ).unwrap();
    assert!(reg.clock.is_some());
    assert!(reg.battery.is_none());
    assert!(reg.audio.is_none());
    assert_eq!(reg.widgets_layout.left.widget_ids.len(), 0);
    assert_eq!(reg.widgets_layout.center.widget_ids.len(), 1);
    assert_eq!(reg.widgets_layout.right.widget_ids.len(), 0);

    let tasks = reg.after_init_tasks();
    assert_eq!(tasks.len(), 1);
    assert_eq!(tasks[0].delay_ms, 500);
    assert!(matches!(
        tasks[0].msg,
        AppMsg::ModuleRegistry(
            ModuleRegistryEvent::Module(ModuleEventTy::Clock(ClockEvent::UpdateTime)),
        ),
    ));

    let m = reg.clock.as_ref().unwrap();
    let expected = clock_text(ClockFormat::HH_MM, m.module.time);
    let tree = reg.view();
    assert_eq!(tree.groups.len(), 1);
    assert_eq!(tree.groups[0].region, Region::Center);
    assert_eq!(tree.groups[0].widgets.len(), 1);
    assert_eq!(tree.groups[0].widgets[0].kind, ModuleKind::Clock);
    assert_eq!(tree.groups[0].widgets[0].id, reg.widgets_layout.center.widget_ids[0]);
    match &tree.groups[0].widgets[0].node {
        RenderNode::Button { text, on_press } => {
            assert_eq!(text, &expected);
            match on_press {
                AppMsg::ModuleRegistry(ModuleRegistryEvent::Widget(id, ev)) => {
                    assert_eq!(*id, reg.widgets_layout.center.widget_ids[0]);
                    assert!(matches!(
                        ev,
                        ModuleWidgetEventTy::Clock(ClockWidgetEvent::SwitchFormat),
                    ));
                },
                other => panic!("unexpected press message: {other:?}"),
            }
        },
        other => panic!("unexpected node: {other:?}"),
    }
}

#[test]
fn after_init_tasks_cover_every_present_module() {
    let mut cfg = config(
        vec![battery_placement()],
        vec![clock_placement(ClockFormat::HH_MM)],
        vec![audio_placement()],
    );
    cfg.configs.battery.info = GenericModuleInfo { delay_ms: 250 };
    let reg = ModuleRegistry::new(cfg).unwrap();
    let tasks = reg.after_init_tasks();
    assert_eq!(tasks.len(), 3);
    assert_eq!(tasks[0].delay_ms, 500);
    assert!(matches!(
        tasks[0].msg,
        AppMsg::ModuleRegistry(
            ModuleRegistryEvent::Module(ModuleEventTy::Clock(ClockEvent::UpdateTime)),
        ),
    ));
    assert_eq!(tasks[1].delay_ms, 250);
    assert!(matches!(
        tasks[1].msg,
        AppMsg::ModuleRegistry(
            ModuleRegistryEvent::Module(ModuleEventTy::Battery(BatteryEvent::Refresh)),
        ),
    ));
    assert_eq!(tasks[2].delay_ms, 500);
    assert!(matches!(
        tasks[2].msg,
        AppMsg::ModuleRegistry(
            ModuleRegistryEvent::Module(ModuleEventTy::Audio(AudioEvent::Refresh)),
        ),
    ));
}

#[test]
fn view_twice_is_structurally_identical() {
    let reg = ModuleRegistry::new(
        config(
            vec![battery_placement()],
            vec![clock_placement(ClockFormat::DD_MM_YYYY_HH_MM_SS)],
            vec![audio_placement()],
        ),
    ).unwrap();
    let t1 = reg.view();
    let t2 = reg.view();
    assert!(trees_eq(&t1, &t2));
}

#[test]
fn empty_regions_are_omitted_from_view() {
    let reg = ModuleRegistry::new(
        config(vec![], vec![], vec![clock_placement(ClockFormat::HH_MM)]),
    ).unwrap();
    let tree = reg.view();
    assert_eq!(tree.groups.len(), 1);
    assert_eq!(tree.groups[0].region, Region::Right);
}

#[test]
fn equal_configs_construct_the_same_shape() {
    let make = || config(
        vec![battery_placement()],
        vec![clock_placement(ClockFormat::HH_MM), clock_placement(ClockFormat::HH_MM_SS)],
        vec![],
    );
    let r1 = ModuleRegistry::new(make()).unwrap();
    let r2 = ModuleRegistry::new(make()).unwrap();
    assert_eq!(r1.clock.is_some(), r2.clock.is_some());
    assert_eq!(r1.battery.is_some(), r2.battery.is_some());
    assert_eq!(r1.audio.is_some(), r2.audio.is_some());
    assert_eq!(
        r1.widgets_layout.left.widget_ids.len(),
        r2.widgets_layout.left.widget_ids.len(),
    );
    assert_eq!(
        r1.widgets_layout.center.widget_ids.len(),
        r2.widgets_layout.center.widget_ids.len(),
    );
    assert_eq!(
        r1.widgets_layout.right.widget_ids.len(),
        r2.widgets_layout.right.widget_ids.len(),
    );
}

#[test]
fn event_to_unknown_widget_id_is_an_error_and_changes_nothing() {
    let mut reg = ModuleRegistry::new(
        config(vec![], vec![clock_placement(ClockFormat::HH_MM)], vec![]),
    ).unwrap();
    let before = reg.view();
    let known = reg.widgets_layout.center.widget_ids[0];
    let bogus = WidgetId(known.0 ^ 1);
    let r = reg.event(
        ModuleRegistryEvent::Widget(bogus, ModuleWidgetEventTy::Clock(
            ClockWidgetEvent::SwitchFormat,
        )),
    );
    assert!(matches!(r, Err(RegistryError::UnknownWidgetId(id)) if id == bogus));
    let after = reg.view();
    assert!(trees_eq(&before, &after));
}

#[test]
fn event_to_absent_module_is_an_error_and_changes_nothing() {
    let mut reg = ModuleRegistry::new(
        config(vec![], vec![clock_placement(ClockFormat::HH_MM)], vec![]),
    ).unwrap();
    let before = reg.view();
    let r = reg.event(
        ModuleRegistryEvent::Module(ModuleEventTy::Battery(BatteryEvent::Refresh)),
    );
    assert!(matches!(r, Err(RegistryError::ModuleAbsent(ModuleKind::Battery))));
    let after = reg.view();
    assert!(trees_eq(&before, &after));
}

#[test]
fn two_clock_widgets_update_independently() {
    let mut reg = ModuleRegistry::new(
        config(
            vec![],
            vec![
                clock_placement(ClockFormat::HH_MM),
                clock_placement(ClockFormat::DD_MM_YY_HH_MM),
            ],
            vec![],
        ),
    ).unwrap();
    {
        let m = reg.clock.as_ref().unwrap();
        assert_eq!(m.widgets.len(), 2);
        assert_eq!(m.widgets[0].1.state.format, ClockFormat::HH_MM);
        assert_eq!(m.widgets[1].1.state.format, ClockFormat::DD_MM_YY_HH_MM);
    }
    let first = reg.clock.as_ref().unwrap().widgets[0].0;
    let r = reg.event(
        ModuleRegistryEvent::Widget(first, ModuleWidgetEventTy::Clock(
            ClockWidgetEvent::SwitchFormat,
        )),
    );
    assert!(matches!(r, Ok(None)));
    let m = reg.clock.as_ref().unwrap();
    assert_eq!(m.widgets[0].1.state.format, ClockFormat::HH_MM_SS);
    assert_eq!(m.widgets[1].1.state.format, ClockFormat::DD_MM_YY_HH_MM);
}

#[test]
fn clock_update_time_broadcasts_to_every_widget() {
    let mut reg = ModuleRegistry::new(
        config(
            vec![clock_placement(ClockFormat::HH_MM)],
            vec![clock_placement(ClockFormat::HH_MM_SS)],
            vec![],
        ),
    ).unwrap();
    let r = reg.event(
        ModuleRegistryEvent::Module(ModuleEventTy::Clock(ClockEvent::UpdateTime)),
    );
    // The clock's cycle hands back no message, and exactly that is
    // delivered.
    assert!(matches!(r, Ok(None)));
    let m = reg.clock.as_ref().unwrap();
    assert_eq!(m.widgets[0].1.state.time, m.module.time);
    assert_eq!(m.widgets[1].1.state.time, m.module.time);
    assert_eq!(m.widgets[0].1.state.format, ClockFormat::HH_MM);
    assert_eq!(m.widgets[1].1.state.format, ClockFormat::HH_MM_SS);
}

#[test]
fn battery_set_data_reaches_module_and_widgets() {
    let mut reg = ModuleRegistry::new(
        config(vec![battery_placement()], vec![], vec![battery_placement()]),
    ).unwrap();
    let data = vec![
        BatteryData { level: 55, state: BatteryState::Discharging },
        BatteryData { level: 80, state: BatteryState::Charging },
    ];
    let r = reg.event(
        ModuleRegistryEvent::Module(ModuleEventTy::Battery(BatteryEvent::SetData(data))),
    );
    assert!(matches!(r, Ok(None)));
    let m = reg.battery.as_ref().unwrap();
    assert_eq!(m.module.data.len(), 2);
    assert_eq!(m.widgets[0].1.state.data.len(), 2);
    assert_eq!(m.widgets[1].1.state.data.len(), 2);

    let tree = reg.view();
    assert_eq!(tree.groups.len(), 2);
    match &tree.groups[0].widgets[0].node {
        RenderNode::Glyphs(spans) => {
            assert_eq!(spans.len(), 2);
            match spans[0].icon {
                Icon::Battery(g) => {
                    assert_eq!(g.charging, false);
                    assert_eq!(g.fill, BatteryFill::Fifty);
                },
                other => panic!("unexpected icon: {other:?}"),
            }
            assert_eq!(spans[0].text, " 55%");
            assert_eq!(spans[1].text, " 80%");
        },
        other => panic!("unexpected node: {other:?}"),
    }
}

#[test]
fn audio_set_data_selects_the_default_device() {
    let mut reg = ModuleRegistry::new(
        config(vec![], vec![], vec![audio_placement()]),
    ).unwrap();
    let snap = AudioSnapshot {
        default_device: String::from("b"),
        devices: vec![
            AudioDevice { name: String::from("a"), muted: false, volume: 20 },
            AudioDevice { name: String::from("b"), muted: false, volume: 70 },
        ],
    };
    let r = reg.event(ModuleRegistryEvent::Module(ModuleEventTy::Audio(AudioEvent::SetData(snap))));
    assert!(matches!(r, Ok(None)));
    let m = reg.audio.as_ref().unwrap();
    assert_eq!(m.module.default, Some(1));
    assert_eq!(m.module.data.len(), 2);

    let tree = reg.view();
    match &tree.groups[0].widgets[0].node {
        RenderNode::Glyphs(spans) => {
            assert_eq!(spans.len(), 1);
            assert_eq!(spans[0].icon, Icon::Audio(AudioGlyph::High));
            assert_eq!(spans[0].text, " 70%");
        },
        other => panic!("unexpected node: {other:?}"),
    }
}

#[test]
fn audio_without_known_default_renders_the_placeholder() {
    let mut reg = ModuleRegistry::new(
        config(vec![audio_placement()], vec![], vec![]),
    ).unwrap();
    let snap = AudioSnapshot {
        default_device: String::from("missing"),
        devices: vec![
            AudioDevice { name: String::from("a"), muted: false, volume: 20 },
        ],
    };
    let r = reg.event(ModuleRegistryEvent::Module(ModuleEventTy::Audio(AudioEvent::SetData(snap))));
    assert!(matches!(r, Ok(None)));
    assert_eq!(reg.audio.as_ref().unwrap().module.default, None);
    let tree = reg.view();
    match &tree.groups[0].widgets[0].node {
        RenderNode::Glyphs(spans) => {
            assert_eq!(spans[0].icon, Icon::Audio(AudioGlyph::Off));
            assert_eq!(spans[0].text, " 0%");
        },
        other => panic!("unexpected node: {other:?}"),
    }
}

#[test]
fn refresh_events_change_nothing() {
    let mut reg = ModuleRegistry::new(
        config(vec![battery_placement()], vec![], vec![audio_placement()]),
    ).unwrap();
    let before = reg.view();
    assert!(matches!(
        reg.event(ModuleRegistryEvent::Module(ModuleEventTy::Battery(BatteryEvent::Refresh))),
        Ok(None),
    ));
    assert!(matches!(
        reg.event(ModuleRegistryEvent::Module(ModuleEventTy::Audio(AudioEvent::Refresh))),
        Ok(None),
    ));
    let after = reg.view();
    assert!(trees_eq(&before, &after));
}

#[test]
fn routing_errors_become_notifications() {
    let mut reg = ModuleRegistry::new(
        config(vec![], vec![clock_placement(ClockFormat::HH_MM)], vec![]),
    ).unwrap();
    let r = reg.event(ModuleRegistryEvent::Module(ModuleEventTy::Battery(BatteryEvent::Refresh)));
    match rbar::registry::notify_or_message(r) {
        Some(AppMsg::NotifyError(s)) => {
            assert_eq!(s, "event addressed to a module that is not present");
        },
        other => panic!("unexpected message: {other:?}"),
    }
    let r = reg.event(ModuleRegistryEvent::Module(ModuleEventTy::Clock(ClockEvent::UpdateTime)));
    assert!(rbar::registry::notify_or_message(r).is_none());
}

#[test]
fn registry_error_messages() {
    assert_eq!(
        RegistryError::DuplicateWidgetId.message(),
        "duplicate widget id drawn at construction",
    );
    assert_eq!(
        RegistryError::ModuleAbsent(ModuleKind::Clock).message(),
        "event addressed to a module that is not present",
    );
    assert_eq!(
        RegistryError::UnknownWidgetId(WidgetId(7)).message(),
        "event addressed to an unknown widget id",
    );
}

#[test]
fn default_configuration_centers_one_clock() {
    let c = Config::default();
    assert_eq!(c.top, true);
    assert_eq!(c.size, (900, 50));
    assert_eq!(c.modules.configs.clock.info.delay_ms, 500);
    assert_eq!(c.modules.widgets.left.widgets.len(), 0);
    assert_eq!(c.modules.widgets.center.widgets.len(), 1);
    assert_eq!(c.modules.widgets.right.widgets.len(), 0);
    match &c.modules.widgets.center.widgets[0] {
        ModuleWidgetConfigTy::Clock(p) => {
            assert_eq!(p.config.format, ClockFormat::DD_MM_YYYY_HH_MM_SS);
            assert!(p.style.is_none());
        },
        other => panic!("unexpected placement: {other:?}"),
    }
    let reg = ModuleRegistry::new(c.modules).unwrap();
    assert!(reg.clock.is_some());
    assert_eq!(reg.widgets_layout.center.widget_ids.len(), 1);
}
