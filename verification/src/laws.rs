//! What holds of the tab controller over whole histories.
//!
//! The functions of [`crate::tabs`] say what one operation does. The
//! statements here follow a controller through many operations.

use vstd::prelude::*;
use crate::layout::GeometryError;
use crate::layout::GeometryModel;
use crate::registry::after_close;
use crate::registry::count_of;
use crate::registry::index_of;
use crate::registry::is_pending;
use crate::registry::lemma_count_of_unique;
use crate::registry::lemma_index_of_is_place;
use crate::registry::lemma_remove_keeps_well_formed;
use crate::registry::registered;
use crate::registry::resolved;
use crate::tabs::after_close_tab;
use crate::tabs::after_complete;
use crate::tabs::after_plan;
use crate::tabs::after_switch;
use crate::tabs::close_commands;
use crate::tabs::coherent;
use crate::tabs::initial_model;
use crate::tabs::lemma_bring_forward;
use crate::tabs::lemma_commit_keeps_coherent;
use crate::tabs::lemma_reserve_keeps_coherent;
use crate::tabs::live_tab;
use crate::tabs::plan_answer;
use crate::tabs::switch_commands;
use crate::tabs::ControllerModel;
use crate::tabs::CreatePlanModel;
use crate::tabs::CreateErrorModel;
use crate::host::HostCommandModel;

verus! {

/// One operation on the controller, with everything that decides its effect.
pub enum Operation {
    /// The first step of a creation.
    BeginCreate {
        label: Seq<char>,
        url: Seq<char>,
        layout: Result<GeometryModel, GeometryError>,
        complaint: Option<Seq<char>>,
    },
    /// The second step of a creation.
    CompleteCreate { label: Seq<char>, succeeded: bool },
    /// A switch to a tab.
    Switch { label: Seq<char> },
    /// The closing of a tab.
    Close { label: Seq<char> },
}

/// The controller after one operation.
pub open spec fn apply(m: ControllerModel, operation: Operation) -> ControllerModel {
    match operation {
        Operation::BeginCreate { label, url, layout, complaint } => after_plan(
            m,
            label,
            url,
            layout,
            complaint,
        ),
        Operation::CompleteCreate { label, succeeded } => after_complete(m, label, succeeded),
        Operation::Switch { label } => after_switch(m, label),
        Operation::Close { label } => after_close_tab(m, label),
    }
}

/// The controller after a list of operations, the first of them first.
pub open spec fn run(m: ControllerModel, operations: Seq<Operation>) -> ControllerModel
    decreases operations.len(),
{
    if operations.len() == 0 {
        m
    } else {
        apply(run(m, operations.drop_last()), operations.last())
    }
}

/// At most one tab is visible, and the pointer names exactly that one.
pub open spec fn exclusive_foreground(m: ControllerModel) -> bool {
    &&& forall|i: int, j: int|
        0 <= i < m.surfaces.len() && 0 <= j < m.surfaces.len() && (
        #[trigger] m.surfaces[i]).kind is Tab && m.surfaces[i].visibility is Visible && (
        #[trigger] m.surfaces[j]).kind is Tab && m.surfaces[j].visibility is Visible ==> i == j
    &&& forall|i: int|
        0 <= i < m.surfaces.len() && (#[trigger] m.surfaces[i]).kind is Tab
            && m.surfaces[i].visibility is Visible ==> m.current == Some(m.surfaces[i].label)
    &&& m.current is Some ==> live_tab(m.surfaces, m.current->0) && m.surfaces[index_of(
        m.surfaces,
        m.current->0,
    )].visibility is Visible
}

/// A coherent controller shows at most one tab, and its pointer names that
/// tab.
pub proof fn lemma_coherent_is_exclusive(m: ControllerModel)
    requires
        coherent(m),
    ensures
        exclusive_foreground(m),
{
    assert forall|i: int, j: int|
        0 <= i < m.surfaces.len() && 0 <= j < m.surfaces.len() && (
        #[trigger] m.surfaces[i]).kind is Tab && m.surfaces[i].visibility is Visible && (
        #[trigger] m.surfaces[j]).kind is Tab
            && m.surfaces[j].visibility is Visible implies i == j by {
        assert(m.surfaces[i].label == m.surfaces[j].label);
    }
}

/// Every single operation keeps a coherent controller coherent.
pub proof fn lemma_operation_keeps_coherent(m: ControllerModel, operation: Operation)
    requires
        coherent(m),
    ensures
        coherent(apply(m, operation)),
{
    match operation {
        Operation::BeginCreate { label, url, layout, complaint } => {
            if !registered(m.surfaces, label) {
                lemma_reserve_keeps_coherent(m, label);
            }
        },
        Operation::CompleteCreate { label, succeeded } => {
            if is_pending(m.surfaces, label) {
                if succeeded {
                    lemma_commit_keeps_coherent(m, label);
                    let committed = ControllerModel {
                        surfaces: crate::registry::after_commit(m.surfaces, label),
                        current: m.current,
                    };
                    lemma_bring_forward(committed, label);
                } else {
                    lemma_close_keeps_coherent_pending(m, label);
                }
            }
        },
        Operation::Switch { label } => {
            if live_tab(m.surfaces, label) {
                lemma_bring_forward(m, label);
            }
        },
        Operation::Close { label } => {
            if live_tab(m.surfaces, label) {
                lemma_close_keeps_coherent(m, label);
            }
        },
    }
}

/// Closing a live tab keeps the controller coherent.
pub proof fn lemma_close_keeps_coherent(m: ControllerModel, label: Seq<char>)
    requires
        coherent(m),
        live_tab(m.surfaces, label),
    ensures
        coherent(after_close_tab(m, label)),
        !registered(after_close_tab(m, label).surfaces, label),
{
    let t = index_of(m.surfaces, label);
    lemma_remove_takes_tab_out(m, label);
}

/// Giving up a creation keeps the controller coherent.
pub proof fn lemma_close_keeps_coherent_pending(m: ControllerModel, label: Seq<char>)
    requires
        coherent(m),
        is_pending(m.surfaces, label),
    ensures
        coherent(after_complete(m, label, false)),
        !registered(after_complete(m, label, false).surfaces, label),
{
    lemma_remove_takes_tab_out(m, label);
    if m.current == Some(label) {
        assert(live_tab(m.surfaces, label));
    }
}

/// Taking the surface of a label out of a coherent controller, and the
/// pointer off it, leaves a coherent controller in which the label is free.
pub proof fn lemma_remove_takes_tab_out(m: ControllerModel, label: Seq<char>)
    requires
        coherent(m),
        registered(m.surfaces, label),
    ensures
        coherent(
            ControllerModel {
                surfaces: m.surfaces.remove(index_of(m.surfaces, label)),
                current: if m.current == Some(label) {
                    None
                } else {
                    m.current
                },
            },
        ),
        !registered(m.surfaces.remove(index_of(m.surfaces, label)), label),
{
    let t = index_of(m.surfaces, label);
    let rest = m.surfaces.remove(t);
    let current = if m.current == Some(label) {
        None
    } else {
        m.current
    };
    lemma_remove_keeps_well_formed(m.surfaces, t);
    assert forall|i: int| 0 <= i < rest.len() && (#[trigger] rest[i]).kind is Tab implies (
    rest[i].visibility is Visible <==> current == Some(rest[i].label)) by {
        let i2 = if i < t {
            i
        } else {
            i + 1
        };
        assert(rest[i] == m.surfaces[i2]);
        assert(m.surfaces[i2].label != m.surfaces[t].label);
    }
    assert forall|i: int|
        0 <= i < rest.len() && (#[trigger] rest[i]).lifecycle_state is Creating implies rest[i].kind is Tab by {
        let i2 = if i < t {
            i
        } else {
            i + 1
        };
        assert(rest[i] == m.surfaces[i2]);
    }
}

/// Whatever operations a fresh controller goes through, creations begun and
/// completed, switches and closes in any order and with any arguments, after
/// each of them at most one tab is visible and the pointer names that tab.
pub proof fn lemma_exclusive_foreground_always(operations: Seq<Operation>)
    ensures
        coherent(run(initial_model(), operations)),
        exclusive_foreground(run(initial_model(), operations)),
    decreases operations.len(),
{
    if operations.len() == 0 {
        let m = initial_model();
        assert(m.surfaces[0].label == crate::tabs::primary_label());
        lemma_index_of_is_place(m.surfaces, 0);
    } else {
        lemma_exclusive_foreground_always(operations.drop_last());
        lemma_operation_keeps_coherent(
            run(initial_model(), operations.drop_last()),
            operations.last(),
        );
    }
    lemma_coherent_is_exclusive(run(initial_model(), operations));
}

/// Creating a tab twice in a row leaves exactly one surface under its label.
///
/// The first creation goes through both steps and succeeds. The second one
/// then finds the label taken: it answers that the tab exists and changes
/// nothing.
pub proof fn lemma_create_twice_registers_once(
    m: ControllerModel,
    label: Seq<char>,
    url: Seq<char>,
    geometry: GeometryModel,
)
    requires
        coherent(m),
    ensures
        ({
            let begun = after_plan(m, label, url, Ok(geometry), None);
            let first = after_complete(begun, label, true);
            &&& count_of(first.surfaces, label) == 1
            &&& plan_answer(first, label, url, Ok(geometry), None) == Ok::<
                CreatePlanModel,
                CreateErrorModel,
            >(CreatePlanModel::AlreadyExists)
            &&& after_plan(first, label, url, Ok(geometry), None) == first
            &&& count_of(after_plan(first, label, url, Ok(geometry), None).surfaces, label) == 1
        }),
{
    let begin = Operation::BeginCreate { label, url, layout: Ok(geometry), complaint: None };
    let begun = after_plan(m, label, url, Ok(geometry), None);
    lemma_operation_keeps_coherent(m, begin);
    assert(begun == apply(m, begin));
    assert(registered(begun.surfaces, label)) by {
        if !registered(m.surfaces, label) {
            lemma_reserve_keeps_coherent(m, label);
        }
    }
    let first = after_complete(begun, label, true);
    lemma_operation_keeps_coherent(begun, Operation::CompleteCreate { label, succeeded: true });
    assert(first == apply(begun, Operation::CompleteCreate { label, succeeded: true }));
    assert(registered(first.surfaces, label)) by {
        if is_pending(begun.surfaces, label) {
            lemma_commit_keeps_coherent(begun, label);
            let committed = ControllerModel {
                surfaces: crate::registry::after_commit(begun.surfaces, label),
                current: begun.current,
            };
            lemma_bring_forward(committed, label);
        }
    }
    lemma_count_of_unique(first.surfaces, label);
}

/// A switch to a label that names no surface changes neither the pointer nor
/// any surface, and asks nothing of the host layer.
pub proof fn lemma_switch_to_unknown_changes_nothing(m: ControllerModel, label: Seq<char>)
    requires
        !registered(m.surfaces, label),
    ensures
        after_switch(m, label) == m,
        switch_commands(m, label) == Seq::<HostCommandModel>::empty(),
{
}

/// Closing the tab in front leaves no tab in front, and a switch to any other
/// live tab afterwards brings that tab to the front and makes it active.
pub proof fn lemma_close_active_then_switch(
    m: ControllerModel,
    label: Seq<char>,
    other: Seq<char>,
)
    requires
        coherent(m),
        m.current == Some(label),
        live_tab(m.surfaces, other),
        other != label,
    ensures
        ({
            let closed = after_close_tab(m, label);
            let switched = after_switch(closed, other);
            &&& closed.current is None
            &&& resolved(closed.surfaces, label) is None
            &&& close_commands(m, label).len() == 2
            &&& switched.current == Some(other)
            &&& resolved(switched.surfaces, other) is Some
            &&& resolved(switched.surfaces, other)->0.lifecycle_state is Active
            &&& resolved(switched.surfaces, other)->0.visibility is Visible
            &&& coherent(switched)
        }),
{
    let closed = after_close_tab(m, label);
    lemma_close_keeps_coherent(m, label);
    let t = index_of(m.surfaces, label);
    lemma_remove_keeps_well_formed(m.surfaces, t);
    assert(closed.surfaces == after_close(m.surfaces, label));
    assert(live_tab(closed.surfaces, other));
    lemma_bring_forward(closed, other);
}

} // verus!
