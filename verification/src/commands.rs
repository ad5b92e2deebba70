//! The small commands that act on one surface, or on all of them, by running
//! a script in it.
//!
//! Each command looks the surface up first and asks nothing of the host
//! layer where the label names no live surface.

use vstd::prelude::*;
use vstd::string::StringExecFns;
use crate::host::commands_model;
use crate::host::HostCommand;
use crate::host::HostCommandModel;
use crate::registry::is_live;
use crate::registry::resolved;
use crate::registry::LifecycleState;
use crate::registry::SurfaceKind;
use crate::registry::SurfaceModel;
use crate::registry::SurfaceRegistry;
use crate::scripts::get_pwa_install_script;
use crate::scripts::icon_in_script;
use crate::scripts::CLEAN_PAGE_SCRIPT;
use crate::scripts::PWA_INSTALL_HEAD;
use crate::scripts::PWA_INSTALL_TAIL;
use crate::scripts::READER_MODE_SCRIPT;

verus! {

/// The command that runs `script` in the surface `label`, where the label
/// names a live surface.
pub open spec fn evaluation(
    surfaces: Seq<SurfaceModel>,
    label: Seq<char>,
    script: Seq<char>,
) -> Option<HostCommandModel> {
    if resolved(surfaces, label) is Some {
        Some(HostCommandModel::Evaluate { label, script })
    } else {
        None
    }
}

/// The model of a command that may be missing.
pub open spec fn optional_command(command: Option<HostCommand>) -> Option<HostCommandModel> {
    match command {
        Some(c) => Some(c@),
        None => None,
    }
}

/// Asks for `script` to be run in the surface `label`.
pub fn evaluate(registry: &SurfaceRegistry, label: &str, script: String) -> (command: Option<
    HostCommand,
>)
    requires
        registry.wf(),
    ensures
        optional_command(command) == evaluation(registry@, label@, script@),
{
    match registry.resolve(label) {
        Some(_) => Some(HostCommand::Evaluate { label: label.to_owned(), script }),
        None => None,
    }
}

/// Sends the surface one step back in its history.
pub fn go_back(registry: &SurfaceRegistry, label: &str) -> (command: Option<HostCommand>)
    requires
        registry.wf(),
    ensures
        optional_command(command) == evaluation(registry@, label@, "window.history.back()"@),
{
    evaluate(registry, label, String::from_str("window.history.back()"))
}

/// Sends the surface one step forward in its history.
pub fn go_forward(registry: &SurfaceRegistry, label: &str) -> (command: Option<HostCommand>)
    requires
        registry.wf(),
    ensures
        optional_command(command) == evaluation(registry@, label@, "window.history.forward()"@),
{
    evaluate(registry, label, String::from_str("window.history.forward()"))
}

/// Loads the page of the surface again.
pub fn refresh(registry: &SurfaceRegistry, label: &str) -> (command: Option<HostCommand>)
    requires
        registry.wf(),
    ensures
        optional_command(command) == if resolved(registry@, label@) is Some {
            Some(HostCommandModel::Reload { label: label@ })
        } else {
            None
        },
{
    match registry.resolve(label) {
        Some(_) => Some(HostCommand::Reload { label: label.to_owned() }),
        None => None,
    }
}

/// Turns the reader mode of the surface on, or off where it is on.
pub fn toggle_reader_mode(registry: &SurfaceRegistry, label: &str) -> (command: Option<
    HostCommand,
>)
    requires
        registry.wf(),
    ensures
        optional_command(command) == evaluation(registry@, label@, READER_MODE_SCRIPT@),
{
    evaluate(registry, label, String::from_str(READER_MODE_SCRIPT))
}

/// Lets the page of the surface offer its site for installation, with the
/// site's icon where one is known.
pub fn install_pwa(registry: &SurfaceRegistry, label: &str, icon_url: Option<String>) -> (command:
    Option<HostCommand>)
    requires
        registry.wf(),
    ensures
        optional_command(command) == evaluation(
            registry@,
            label@,
            PWA_INSTALL_HEAD@ + icon_in_script(crate::text::optional_text(icon_url))
                + PWA_INSTALL_TAIL@,
        ),
{
    let script = get_pwa_install_script(icon_url);
    evaluate(registry, label, script)
}

/// The surface is live and is not the primary one.
pub open spec fn is_page(surface: SurfaceModel) -> bool {
    is_live(surface) && !(surface.kind is Primary)
}

/// The commands that run `script` in every live surface but the primary one,
/// in the order of the record.
pub open spec fn page_evaluations(surfaces: Seq<SurfaceModel>, script: Seq<char>) -> Seq<
    HostCommandModel,
>
    decreases surfaces.len(),
{
    if surfaces.len() == 0 {
        Seq::empty()
    } else {
        page_evaluations(surfaces.drop_last(), script) + if is_page(surfaces.last()) {
            seq![HostCommandModel::Evaluate { label: surfaces.last().label, script }]
        } else {
            Seq::empty()
        }
    }
}

/// Takes the floating overlays out of every page.
pub fn clean_page(registry: &SurfaceRegistry) -> (commands: Vec<HostCommand>)
    requires
        registry.wf(),
    ensures
        commands_model(commands@) == page_evaluations(registry@, CLEAN_PAGE_SCRIPT@),
{
    let mut commands: Vec<HostCommand> = Vec::new();
    let ghost surfaces = registry@;
    let n = registry.len();
    let mut i: usize = 0;
    proof {
        assert(surfaces.take(0) =~= Seq::<SurfaceModel>::empty());
        assert(commands_model(commands@) =~= page_evaluations(
            surfaces.take(0),
            CLEAN_PAGE_SCRIPT@,
        ));
    }
    while i < n
        invariant
            i <= n,
            n == surfaces.len(),
            surfaces == registry@,
            commands_model(commands@) == page_evaluations(
                surfaces.take(i as int),
                CLEAN_PAGE_SCRIPT@,
            ),
        decreases n - i,
    {
        let surface = registry.get(i);
        let ghost before = commands@;
        let live = match surface.lifecycle_state {
            LifecycleState::Active | LifecycleState::Hidden => true,
            _ => false,
        };
        let primary = match surface.kind {
            SurfaceKind::Primary => true,
            _ => false,
        };
        if live && !primary {
            commands.push(
                HostCommand::Evaluate {
                    label: surface.label.clone(),
                    script: String::from_str(CLEAN_PAGE_SCRIPT),
                },
            );
        }
        proof {
            assert(surfaces.take(i + 1).drop_last() =~= surfaces.take(i as int));
            assert(surfaces.take(i + 1).last() == surfaces[i as int]);
            if live && !primary {
                assert(commands_model(commands@) =~= commands_model(before) + seq![
                    HostCommandModel::Evaluate {
                        label: surfaces[i as int].label,
                        script: CLEAN_PAGE_SCRIPT@,
                    },
                ]);
            } else {
                assert(commands_model(commands@) =~= commands_model(before)
                    + Seq::<HostCommandModel>::empty());
            }
        }
        i += 1;
    }
    assert(surfaces.take(n as int) =~= surfaces);
    commands
}

} // verus!
