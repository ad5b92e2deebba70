use lumina::host::HostCommand;
use lumina::host::LifecycleEvent;
use lumina::host::TabClosedPayload;
use lumina::host::TabCreatedPayload;
use lumina::layout::GeometryError;
use lumina::layout::PanelState;
use lumina::layout::Rect;
use lumina::layout::WindowSize;
use lumina::registry::LifecycleState;
use lumina::registry::Surface;
use lumina::registry::SurfaceKind;
use lumina::registry::SurfaceRegistry;
use lumina::registry::Visibility;
use lumina::tabs::navigation_script;
use lumina::tabs::CreateError;
use lumina::tabs::CreatePlan;
use lumina::tabs::CreationFailure;
use lumina::tabs::PendingTab;
use lumina::tabs::TabLifecycleController;

const WINDOW: WindowSize = WindowSize { width: 1200, height: 800 };
const PANEL: PanelState =
    PanelState { sidebar_open: false, suggestions_height: 0, vertical_tabs: false };
const TAB_RECT: Rect = Rect { x: 0, y: 104, width: 1200, height: 696 };
const BAR_RECT: Rect = Rect { x: 0, y: 0, width: 1200, height: 104 };

fn s(text: &str) -> String {
    text.to_string()
}

fn begin(controller: &mut TabLifecycleController, label: &str, url: &str) -> PendingTab {
    match controller.begin_create(label, url, WINDOW, PANEL) {
        Ok(CreatePlan::Create { pending, .. }) => pending,
        other => panic!("no plan to create {}: {:?}", label, other),
    }
}

fn create(controller: &mut TabLifecycleController, label: &str, url: &str) -> Vec<HostCommand> {
    let pending = begin(controller, label, url);
    controller.complete_create(pending, Ok(())).unwrap()
}

fn state_of(controller: &TabLifecycleController, label: &str) -> Option<(Visibility, LifecycleState)> {
    let registry = controller.registry();
    for i in 0..registry.len() {
        let surface = registry.get(i);
        if surface.label == label {
            return Some((surface.visibility, surface.lifecycle_state));
        }
    }
    None
}

fn visible_tabs(controller: &TabLifecycleController) -> Vec<String> {
    let registry = controller.registry();
    let mut labels = Vec::new();
    for i in 0..registry.len() {
        let surface = registry.get(i);
        if surface.kind == SurfaceKind::Tab && surface.visibility == Visibility::Visible {
            labels.push(surface.label.clone());
        }
    }
    labels
}

fn assert_exclusive(controller: &TabLifecycleController) {
    let visible = visible_tabs(controller);
    match controller.current_tab() {
        Some(label) => assert_eq!(visible, vec![label.clone()]),
        None => assert!(visible.is_empty()),
    }
}

#[test]
fn fresh_controller_knows_the_primary_surface_only() {
    let controller = TabLifecycleController::new();
    assert_eq!(controller.current_tab(), None);
    assert_eq!(controller.registry().len(), 1);
    assert_eq!(
        controller.registry().get(0),
        &Surface {
            label: s("main"),
            kind: SurfaceKind::Primary,
            visibility: Visibility::Visible,
            lifecycle_state: LifecycleState::Active,
        }
    );
}

#[test]
fn begin_create_plans_the_host_work() {
    let mut controller = TabLifecycleController::new();
    let plan = controller.begin_create("a", "https://example.com", WINDOW, PANEL);
    assert_eq!(
        plan,
        Ok(CreatePlan::Create {
            pending: PendingTab { label: s("a"), url: s("https://example.com"), rect: TAB_RECT },
            commands: vec![
                HostCommand::Resize { label: s("main"), rect: BAR_RECT },
                HostCommand::Create { label: s("a"), url: s("https://example.com"), rect: TAB_RECT },
            ],
        })
    );
    assert_eq!(state_of(&controller, "a"), Some((Visibility::Hidden, LifecycleState::Creating)));
    assert!(controller.registry().resolve("a").is_none());
    assert_eq!(controller.current_tab(), None);
}

#[test]
fn begin_create_normalizes_the_destination() {
    let mut controller = TabLifecycleController::new();
    let pending = begin(&mut controller, "a", "lumina://history");
    assert_eq!(pending.url, "lumina-app://localhost/history");
}

#[test]
fn complete_create_brings_the_tab_forward() {
    let mut controller = TabLifecycleController::new();
    let commands = create(&mut controller, "a", "https://example.com");
    assert_eq!(
        commands,
        vec![
            HostCommand::Show { label: s("a") },
            HostCommand::Focus { label: s("a") },
            HostCommand::EnforceForeground { label: s("a") },
            HostCommand::Evaluate {
                label: s("a"),
                script: s("window.location.replace(\"https://example.com\")"),
            },
            HostCommand::Reposition { label: s("a"), rect: TAB_RECT },
            HostCommand::Emit {
                event: LifecycleEvent::TabCreated(TabCreatedPayload {
                    label: s("a"),
                    url: s("https://example.com"),
                }),
            },
            HostCommand::Probe { label: s("a"), url: s("https://example.com") },
        ]
    );
    assert_eq!(controller.current_tab(), Some(&s("a")));
    assert_eq!(state_of(&controller, "a"), Some((Visibility::Visible, LifecycleState::Active)));
    assert_exclusive(&controller);
}

#[test]
fn script_quotes_the_address_as_json() {
    let mut controller = TabLifecycleController::new();
    let commands = create(&mut controller, "q", "https://example.com/?q=\"a\\b\"");
    assert_eq!(
        commands[3],
        HostCommand::Evaluate {
            label: s("q"),
            script: s("window.location.replace(\"https://example.com/?q=\\\"a\\\\b\\\"\")"),
        }
    );
}

#[test]
fn navigation_script_with_and_without_json() {
    assert_eq!(
        navigation_script("https://a.example", Some(s("\"https://a.example\""))),
        "window.location.replace(\"https://a.example\")"
    );
    assert_eq!(
        navigation_script("https://a.example", None),
        "window.location.replace('https://a.example')"
    );
}

#[test]
fn second_tab_hides_the_first() {
    let mut controller = TabLifecycleController::new();
    create(&mut controller, "a", "https://example.com");
    let commands = create(&mut controller, "b", "https://example.org");
    assert_eq!(commands[0], HostCommand::Hide { label: s("a") });
    assert_eq!(commands[1], HostCommand::Show { label: s("b") });
    assert_eq!(commands.len(), 8);
    assert_eq!(state_of(&controller, "b"), Some((Visibility::Visible, LifecycleState::Active)));
    assert_eq!(state_of(&controller, "a"), Some((Visibility::Hidden, LifecycleState::Hidden)));
    assert_eq!(controller.current_tab(), Some(&s("b")));
    assert_exclusive(&controller);
}

#[test]
fn creating_twice_registers_once() {
    let mut controller = TabLifecycleController::new();
    create(&mut controller, "t1", "https://example.com");
    let before = controller.registry().len();
    let again = controller.begin_create("t1", "https://example.com", WINDOW, PANEL);
    assert_eq!(again, Ok(CreatePlan::AlreadyExists));
    assert_eq!(controller.registry().len(), before);
    let registry = controller.registry();
    let count = (0..registry.len()).filter(|i| registry.get(*i).label == "t1").count();
    assert_eq!(count, 1);
    assert_eq!(controller.current_tab(), Some(&s("t1")));
    assert_exclusive(&controller);
}

#[test]
fn creating_while_the_same_label_is_in_creation_does_nothing() {
    let mut controller = TabLifecycleController::new();
    let _pending = begin(&mut controller, "t1", "https://example.com");
    let again = controller.begin_create("t1", "https://example.org", WINDOW, PANEL);
    assert_eq!(again, Ok(CreatePlan::AlreadyExists));
    assert_eq!(controller.registry().len(), 2);
}

#[test]
fn the_primary_label_is_taken() {
    let mut controller = TabLifecycleController::new();
    assert_eq!(
        controller.begin_create("main", "https://example.com", WINDOW, PANEL),
        Ok(CreatePlan::AlreadyExists)
    );
    assert!(controller.switch_tab("main").is_empty());
    assert!(controller.close_tab("main").is_empty());
    assert_eq!(controller.current_tab(), None);
    assert_eq!(controller.registry().len(), 1);
}

#[test]
fn existing_label_wins_over_a_malformed_window() {
    let mut controller = TabLifecycleController::new();
    create(&mut controller, "a", "https://example.com");
    let bad = WindowSize { width: -1, height: 10 };
    assert_eq!(
        controller.begin_create("a", "not an address", bad, PANEL),
        Ok(CreatePlan::AlreadyExists)
    );
}

#[test]
fn malformed_window_begins_nothing() {
    let mut controller = TabLifecycleController::new();
    let bad = WindowSize { width: 1200, height: -800 };
    assert_eq!(
        controller.begin_create("a", "https://example.com", bad, PANEL),
        Err(CreateError::Geometry(GeometryError::NegativeHeight))
    );
    let worse = WindowSize { width: -1200, height: -800 };
    assert_eq!(
        controller.begin_create("a", "https://example.com", worse, PANEL),
        Err(CreateError::Geometry(GeometryError::NegativeWidth))
    );
    assert_eq!(controller.registry().len(), 1);
}

#[test]
fn invalid_destination_begins_nothing() {
    let mut controller = TabLifecycleController::new();
    assert_eq!(
        controller.begin_create("a", "not an address", WINDOW, PANEL),
        Err(CreateError::Creation(CreationFailure::InvalidUrl {
            reason: s("relative URL without a base"),
        }))
    );
    assert_eq!(controller.registry().len(), 1);
    assert_eq!(state_of(&controller, "a"), None);
}

#[test]
fn plan_create_takes_the_parsers_word() {
    let mut controller = TabLifecycleController::new();
    assert_eq!(
        controller.plan_create("a", s("https://example.com"), WINDOW, PANEL, Some(s("no"))),
        Err(CreateError::Creation(CreationFailure::InvalidUrl { reason: s("no") }))
    );
    let plan = controller.plan_create("a", s("anything"), WINDOW, PANEL, None);
    assert!(matches!(plan, Ok(CreatePlan::Create { .. })));
}

#[test]
fn failed_creation_leaves_no_trace() {
    let mut controller = TabLifecycleController::new();
    create(&mut controller, "a", "https://example.com");
    let pending = begin(&mut controller, "b", "https://example.org");
    let answer = controller
        .complete_create(pending, Err(CreationFailure::Rejected { reason: s("no window") }));
    assert_eq!(answer, Err(CreationFailure::Rejected { reason: s("no window") }));
    assert_eq!(state_of(&controller, "b"), None);
    assert_eq!(controller.registry().len(), 2);
    assert_eq!(controller.current_tab(), Some(&s("a")));
    assert_eq!(state_of(&controller, "a"), Some((Visibility::Visible, LifecycleState::Active)));
    assert_exclusive(&controller);
    let pending = begin(&mut controller, "b", "https://example.org");
    assert_eq!(
        controller.complete_create(pending, Err(CreationFailure::Panicked)),
        Err(CreationFailure::Panicked)
    );
    assert_eq!(state_of(&controller, "b"), None);
    let commands = create(&mut controller, "b", "https://example.org");
    assert_eq!(commands[0], HostCommand::Hide { label: s("a") });
    assert_eq!(controller.current_tab(), Some(&s("b")));
}

#[test]
fn completing_what_was_never_begun_changes_nothing() {
    let mut controller = TabLifecycleController::new();
    create(&mut controller, "a", "https://example.com");
    let stray = PendingTab { label: s("ghost"), url: s("https://example.org"), rect: TAB_RECT };
    assert_eq!(controller.complete_create(stray, Ok(())), Ok(vec![]));
    let live = PendingTab { label: s("a"), url: s("https://example.org"), rect: TAB_RECT };
    assert_eq!(controller.complete_create(live, Ok(())), Ok(vec![]));
    let failed = PendingTab { label: s("a"), url: s("https://example.org"), rect: TAB_RECT };
    assert_eq!(
        controller.complete_create(failed, Err(CreationFailure::Panicked)),
        Err(CreationFailure::Panicked)
    );
    assert_eq!(controller.registry().len(), 2);
    assert_eq!(state_of(&controller, "a"), Some((Visibility::Visible, LifecycleState::Active)));
    assert_eq!(controller.current_tab(), Some(&s("a")));
}

#[test]
fn switch_to_unknown_changes_nothing() {
    let mut controller = TabLifecycleController::new();
    create(&mut controller, "a", "https://example.com");
    create(&mut controller, "b", "https://example.org");
    assert!(controller.switch_tab("unknown").is_empty());
    assert_eq!(controller.current_tab(), Some(&s("b")));
    assert_eq!(state_of(&controller, "a"), Some((Visibility::Hidden, LifecycleState::Hidden)));
    assert_eq!(state_of(&controller, "b"), Some((Visibility::Visible, LifecycleState::Active)));
    assert_eq!(state_of(&controller, "unknown"), None);
    assert_eq!(controller.registry().len(), 3);
}

#[test]
fn switch_to_a_tab_in_creation_changes_nothing() {
    let mut controller = TabLifecycleController::new();
    create(&mut controller, "a", "https://example.com");
    let _pending = begin(&mut controller, "b", "https://example.org");
    assert!(controller.switch_tab("b").is_empty());
    assert!(controller.close_tab("b").is_empty());
    assert_eq!(controller.current_tab(), Some(&s("a")));
    assert_eq!(state_of(&controller, "b"), Some((Visibility::Hidden, LifecycleState::Creating)));
}

#[test]
fn switch_swaps_the_foreground() {
    let mut controller = TabLifecycleController::new();
    create(&mut controller, "a", "https://example.com");
    create(&mut controller, "b", "https://example.org");
    assert_eq!(
        controller.switch_tab("a"),
        vec![
            HostCommand::Hide { label: s("b") },
            HostCommand::Show { label: s("a") },
            HostCommand::Focus { label: s("a") },
            HostCommand::EnforceForeground { label: s("a") },
        ]
    );
    assert_eq!(controller.current_tab(), Some(&s("a")));
    assert_eq!(state_of(&controller, "a"), Some((Visibility::Visible, LifecycleState::Active)));
    assert_eq!(state_of(&controller, "b"), Some((Visibility::Hidden, LifecycleState::Hidden)));
    assert_exclusive(&controller);
}

#[test]
fn switch_to_the_tab_in_front_raises_it_again() {
    let mut controller = TabLifecycleController::new();
    create(&mut controller, "a", "https://example.com");
    assert_eq!(
        controller.switch_tab("a"),
        vec![
            HostCommand::Show { label: s("a") },
            HostCommand::Focus { label: s("a") },
            HostCommand::EnforceForeground { label: s("a") },
        ]
    );
    assert_eq!(controller.current_tab(), Some(&s("a")));
    assert_exclusive(&controller);
}

#[test]
fn closing_the_tab_in_front_promotes_nothing() {
    let mut controller = TabLifecycleController::new();
    create(&mut controller, "a", "https://example.com");
    create(&mut controller, "b", "https://example.org");
    assert_eq!(
        controller.close_tab("b"),
        vec![
            HostCommand::Close { label: s("b") },
            HostCommand::Emit {
                event: LifecycleEvent::TabClosed(TabClosedPayload { label: s("b") }),
            },
        ]
    );
    assert_eq!(controller.current_tab(), None);
    assert_eq!(state_of(&controller, "b"), None);
    assert_eq!(state_of(&controller, "a"), Some((Visibility::Hidden, LifecycleState::Hidden)));
    assert_exclusive(&controller);
    assert_eq!(
        controller.switch_tab("a"),
        vec![
            HostCommand::Show { label: s("a") },
            HostCommand::Focus { label: s("a") },
            HostCommand::EnforceForeground { label: s("a") },
        ]
    );
    assert_eq!(controller.current_tab(), Some(&s("a")));
    assert_eq!(state_of(&controller, "a"), Some((Visibility::Visible, LifecycleState::Active)));
    assert_exclusive(&controller);
}

#[test]
fn closing_a_hidden_tab_keeps_the_foreground() {
    let mut controller = TabLifecycleController::new();
    create(&mut controller, "a", "https://example.com");
    create(&mut controller, "b", "https://example.org");
    assert_eq!(controller.close_tab("a").len(), 2);
    assert_eq!(controller.current_tab(), Some(&s("b")));
    assert!(controller.close_tab("a").is_empty());
    assert!(controller.close_tab("never").is_empty());
    assert!(controller.switch_tab("a").is_empty());
    assert_exclusive(&controller);
}

#[test]
fn a_closed_label_can_be_used_again() {
    let mut controller = TabLifecycleController::new();
    create(&mut controller, "a", "https://example.com");
    controller.close_tab("a");
    assert!(controller.registry().resolve("a").is_none());
    let commands = create(&mut controller, "a", "https://example.net");
    assert_eq!(commands[0], HostCommand::Show { label: s("a") });
    assert_eq!(controller.current_tab(), Some(&s("a")));
    assert_eq!(controller.registry().len(), 2);
}

#[test]
fn exclusive_foreground_holds_along_a_history() {
    let mut controller = TabLifecycleController::new();
    let labels = ["a", "b", "c", "d"];
    let mut pending: Vec<PendingTab> = Vec::new();
    for step in 0..200u32 {
        let label = labels[(step as usize * 7 + step as usize / 3) % labels.len()];
        match step % 5 {
            0 => {
                if let Ok(CreatePlan::Create { pending: p, .. }) =
                    controller.begin_create(label, "https://example.com", WINDOW, PANEL)
                {
                    pending.push(p);
                }
            }
            1 => {
                if let Some(p) = pending.pop() {
                    let outcome =
                        if step % 3 == 0 { Err(CreationFailure::Panicked) } else { Ok(()) };
                    let _ = controller.complete_create(p, outcome);
                }
            }
            2 | 3 => {
                controller.switch_tab(label);
            }
            _ => {
                controller.close_tab(label);
            }
        }
        assert_exclusive(&controller);
    }
}

#[test]
fn update_layout_places_every_live_tab() {
    let mut controller = TabLifecycleController::new();
    create(&mut controller, "a", "https://example.com");
    create(&mut controller, "b", "https://example.org");
    let _pending = begin(&mut controller, "c", "https://example.net");
    let vertical = PanelState { sidebar_open: false, suggestions_height: 0, vertical_tabs: true };
    let place = Rect { x: 200, y: 60, width: 1000, height: 740 };
    assert_eq!(
        controller.update_layout(WINDOW, vertical),
        Ok(vec![
            HostCommand::Resize {
                label: s("main"),
                rect: Rect { x: 0, y: 0, width: 200, height: 800 }
            },
            HostCommand::Reposition { label: s("a"), rect: place },
            HostCommand::Reposition { label: s("b"), rect: place },
        ])
    );
}

#[test]
fn update_layout_focuses_the_primary_surface_while_the_panel_is_open() {
    let controller = TabLifecycleController::new();
    let open = PanelState { sidebar_open: true, suggestions_height: 0, vertical_tabs: false };
    assert_eq!(
        controller.update_layout(WINDOW, open),
        Ok(vec![
            HostCommand::Resize {
                label: s("main"),
                rect: Rect { x: 0, y: 0, width: 1200, height: 800 }
            },
            HostCommand::Focus { label: s("main") },
        ])
    );
}

#[test]
fn update_layout_refuses_a_malformed_window() {
    let controller = TabLifecycleController::new();
    assert_eq!(
        controller.update_layout(WindowSize { width: -1, height: 0 }, PANEL),
        Err(GeometryError::NegativeWidth)
    );
    assert_eq!(
        controller.update_layout(WindowSize { width: 0, height: -1 }, PANEL),
        Err(GeometryError::NegativeHeight)
    );
}

#[test]
fn registry_primitives() {
    let mut registry = SurfaceRegistry::new();
    assert_eq!(registry.len(), 0);
    assert!(!registry.is_registered("x"));
    assert!(registry.reserve("x", SurfaceKind::Ephemeral));
    assert!(!registry.reserve("x", SurfaceKind::Tab));
    assert!(registry.is_registered("x"));
    assert!(registry.resolve("x").is_none());
    assert_eq!(registry.set_visibility("x", Visibility::Visible), None);
    assert_eq!(registry.reposition("x", TAB_RECT), None);
    assert_eq!(registry.enforce_foreground("x"), None);
    assert_eq!(registry.close("x"), None);
    assert!(!registry.abort("y"));
    assert!(!registry.commit("y"));
    assert!(registry.commit("x"));
    assert!(!registry.commit("x"));
    assert!(!registry.abort("x"));
    assert_eq!(
        registry.resolve("x"),
        Some(&Surface {
            label: s("x"),
            kind: SurfaceKind::Ephemeral,
            visibility: Visibility::Hidden,
            lifecycle_state: LifecycleState::Hidden,
        })
    );
    assert_eq!(
        registry.set_visibility("x", Visibility::Visible),
        Some(HostCommand::Show { label: s("x") })
    );
    assert_eq!(registry.resolve("x").unwrap().lifecycle_state, LifecycleState::Active);
    assert_eq!(
        registry.set_visibility("x", Visibility::Hidden),
        Some(HostCommand::Hide { label: s("x") })
    );
    assert_eq!(
        registry.reposition("x", TAB_RECT),
        Some(HostCommand::Reposition { label: s("x"), rect: TAB_RECT })
    );
    assert_eq!(
        registry.enforce_foreground("x"),
        Some(HostCommand::EnforceForeground { label: s("x") })
    );
    assert_eq!(
        registry.enforce_foreground("x"),
        Some(HostCommand::EnforceForeground { label: s("x") })
    );
    assert_eq!(
        registry.close("x"),
        Some(Surface {
            label: s("x"),
            kind: SurfaceKind::Ephemeral,
            visibility: Visibility::Hidden,
            lifecycle_state: LifecycleState::Closed,
        })
    );
    assert_eq!(registry.close("x"), None);
    assert!(!registry.is_registered("x"));
    assert_eq!(registry.len(), 0);
    assert!(registry.reserve("y", SurfaceKind::Tab));
    assert!(registry.abort("y"));
    assert!(!registry.is_registered("y"));
}

#[test]
fn finish_create_takes_the_json_text_as_given() {
    let mut controller = TabLifecycleController::new();
    let pending = begin(&mut controller, "a", "https://example.com");
    let commands = controller.finish_create(pending, Ok(()), None).unwrap();
    assert_eq!(
        commands[3],
        HostCommand::Evaluate {
            label: s("a"),
            script: s("window.location.replace('https://example.com')"),
        }
    );
    let pending = begin(&mut controller, "b", "https://example.org");
    let commands = controller.finish_create(pending, Ok(()), Some(s("\"x\""))).unwrap();
    assert_eq!(
        commands[4],
        HostCommand::Evaluate { label: s("b"), script: s("window.location.replace(\"x\")") }
    );
    let pending = begin(&mut controller, "c", "https://example.net");
    assert_eq!(
        controller.finish_create(pending, Err(CreationFailure::Panicked), Some(s("\"x\""))),
        Err(CreationFailure::Panicked)
    );
    assert_eq!(controller.current_tab(), Some(&s("b")));
}

#[test]
fn tab_at_a_page_of_the_application_is_not_probed() {
    let mut controller = TabLifecycleController::new();
    let commands = create(&mut controller, "a", "lumina://history");
    assert_eq!(commands.len(), 6);
    assert_eq!(
        commands[5],
        HostCommand::Emit {
            event: LifecycleEvent::TabCreated(TabCreatedPayload {
                label: s("a"),
                url: s("lumina-app://localhost/history"),
            }),
        }
    );
    assert!(!commands.iter().any(|c| matches!(c, HostCommand::Probe { .. })));
    let outside = create(&mut controller, "b", "https://example.com");
    assert_eq!(
        outside.last(),
        Some(&HostCommand::Probe { label: s("b"), url: s("https://example.com") })
    );
}

#[test]
fn start_sizes_the_primary_bar_only() {
    let mut controller = TabLifecycleController::new();
    create(&mut controller, "a", "https://example.com");
    assert_eq!(
        controller.init_browser(WINDOW),
        Ok(vec![HostCommand::Resize { label: s("main"), rect: BAR_RECT }])
    );
    assert_eq!(
        controller.init_browser(WindowSize { width: 640, height: 20 }),
        Ok(vec![HostCommand::Resize {
            label: s("main"),
            rect: Rect { x: 0, y: 0, width: 640, height: 104 }
        }])
    );
    assert_eq!(
        controller.init_browser(WindowSize { width: -1, height: 20 }),
        Err(GeometryError::NegativeWidth)
    );
    assert_eq!(
        controller.init_browser(WindowSize { width: 1, height: -20 }),
        Err(GeometryError::NegativeHeight)
    );
}
