//! The life of tabs: creating, switching and closing them, so that at most
//! one tab is in front at any time.
//!
//! The controller keeps the record of surfaces and the label of the tab in
//! front. Creating a tab takes two steps with the host layer's work between
//! them: [`TabLifecycleController::begin_create`] enters the tab and says what
//! to create, [`TabLifecycleController::complete_create`] takes what the host
//! layer answered. Neither step holds anything across that work, so switches
//! and closes of other tabs may happen between the two.

use vstd::prelude::*;
use vstd::string::StringExecFns;
use crate::codec::json_text;
use crate::codec::parse_url;
use crate::codec::to_json;
use crate::codec::url_parse_error;
use crate::host::commands_model;
use crate::host::HostCommand;
use crate::host::HostCommandModel;
use crate::host::LifecycleEvent;
use crate::host::LifecycleEventModel;
use crate::host::TabClosedPayload;
use crate::host::TabCreatedPayload;
use crate::layout::calculate_layout;
use crate::layout::layout_result;
use crate::layout::GeometryError;
use crate::layout::GeometryModel;
use crate::layout::PanelState;
use crate::layout::Rect;
use crate::layout::RectModel;
use crate::layout::WindowSize;
use crate::navigation::is_internal_url;
use crate::navigation::normalize_url;
use crate::navigation::probe_commands;
use crate::navigation::normalized;
use crate::text::optional_text;
use crate::registry::after_abort;
use crate::registry::after_close;
use crate::registry::after_commit;
use crate::registry::after_reserve;
use crate::registry::after_set_visibility;
use crate::registry::index_of;
use crate::registry::is_consistent;
use crate::registry::is_live;
use crate::registry::is_pending;
use crate::registry::lemma_index_of_is_place;
use crate::registry::lemma_update_keeps_labels;
use crate::registry::registered;
use crate::registry::resolved;
use crate::registry::well_formed;
use crate::registry::LifecycleState;
use crate::registry::SurfaceKind;
use crate::registry::SurfaceModel;
use crate::registry::SurfaceRegistry;
use crate::registry::Visibility;

verus! {

/// Why the host layer made no surface.
#[derive(Debug, PartialEq, Eq)]
pub enum CreationFailure {
    /// The destination is no address that a surface can be sent to.
    InvalidUrl { reason: String },
    /// The host layer refused.
    Rejected { reason: String },
    /// The host layer broke down in the middle of the call.
    Panicked,
}

/// A [`CreationFailure`] over sequences of characters.
pub enum CreationFailureModel {
    InvalidUrl { reason: Seq<char> },
    Rejected { reason: Seq<char> },
    Panicked,
}

impl View for CreationFailure {
    type V = CreationFailureModel;

    open spec fn view(&self) -> CreationFailureModel {
        match self {
            CreationFailure::InvalidUrl { reason } => CreationFailureModel::InvalidUrl {
                reason: reason@,
            },
            CreationFailure::Rejected { reason } => CreationFailureModel::Rejected {
                reason: reason@,
            },
            CreationFailure::Panicked => CreationFailureModel::Panicked,
        }
    }
}

/// Why no tab was begun.
#[derive(Debug, PartialEq, Eq)]
pub enum CreateError {
    /// The window's size is malformed.
    Geometry(GeometryError),
    /// The tab cannot be created.
    Creation(CreationFailure),
}

/// A [`CreateError`] over sequences of characters.
pub enum CreateErrorModel {
    Geometry(GeometryError),
    Creation(CreationFailureModel),
}

impl View for CreateError {
    type V = CreateErrorModel;

    open spec fn view(&self) -> CreateErrorModel {
        match self {
            CreateError::Geometry(e) => CreateErrorModel::Geometry(*e),
            CreateError::Creation(f) => CreateErrorModel::Creation(f@),
        }
    }
}

/// A tab whose creation is under way: what was asked of the host layer.
#[derive(Debug, PartialEq, Eq)]
pub struct PendingTab {
    pub label: String,
    pub url: String,
    pub rect: Rect,
}

/// A [`PendingTab`] over sequences of characters.
pub struct PendingTabModel {
    pub label: Seq<char>,
    pub url: Seq<char>,
    pub rect: RectModel,
}

impl View for PendingTab {
    type V = PendingTabModel;

    open spec fn view(&self) -> PendingTabModel {
        PendingTabModel { label: self.label@, url: self.url@, rect: self.rect@ }
    }
}

/// What the first step of a creation came to.
#[derive(Debug, PartialEq, Eq)]
pub enum CreatePlan {
    /// The label is taken: nothing is to be done.
    AlreadyExists,
    /// The tab is entered. The host layer carries out `commands` and its
    /// answer goes, with `pending`, into the second step.
    Create { pending: PendingTab, commands: Vec<HostCommand> },
}

/// A [`CreatePlan`] over sequences.
pub enum CreatePlanModel {
    AlreadyExists,
    Create { pending: PendingTabModel, commands: Seq<HostCommandModel> },
}

impl View for CreatePlan {
    type V = CreatePlanModel;

    open spec fn view(&self) -> CreatePlanModel {
        match self {
            CreatePlan::AlreadyExists => CreatePlanModel::AlreadyExists,
            CreatePlan::Create { pending, commands } => CreatePlanModel::Create {
                pending: pending@,
                commands: commands_model(commands@),
            },
        }
    }
}

/// The record of surfaces and the label of the tab in front.
pub struct ControllerModel {
    pub surfaces: Seq<SurfaceModel>,
    pub current: Option<Seq<char>>,
}

/// The label of the primary surface.
pub open spec fn primary_label() -> Seq<char> {
    "main"@
}

/// The surface is a tab that can be looked up and commanded.
pub open spec fn is_live_tab(surface: SurfaceModel) -> bool {
    surface.kind is Tab && is_live(surface)
}

/// `label` names a live tab.
pub open spec fn live_tab(surfaces: Seq<SurfaceModel>, label: Seq<char>) -> bool {
    registered(surfaces, label) && is_live_tab(surfaces[index_of(surfaces, label)])
}

/// What holds of the controller between any two operations.
///
/// The record is well formed. A tab is visible exactly if the pointer names
/// it, so at most one tab is visible. The pointer names a live tab or
/// nothing. Only tabs are ever in creation.
pub open spec fn coherent(m: ControllerModel) -> bool {
    &&& well_formed(m.surfaces)
    &&& forall|i: int|
        0 <= i < m.surfaces.len() && (#[trigger] m.surfaces[i]).kind is Tab ==> (
        m.surfaces[i].visibility is Visible <==> m.current == Some(m.surfaces[i].label))
    &&& forall|i: int|
        0 <= i < m.surfaces.len() && (#[trigger] m.surfaces[i]).lifecycle_state is Creating
            ==> m.surfaces[i].kind is Tab
    &&& m.current is Some ==> live_tab(m.surfaces, m.current->0)
}

/// The controller at the start: the primary surface alone, and no tab in
/// front.
pub open spec fn initial_model() -> ControllerModel {
    ControllerModel {
        surfaces: seq![
            SurfaceModel {
                label: primary_label(),
                kind: SurfaceKind::Primary,
                visibility: Visibility::Visible,
                lifecycle_state: LifecycleState::Active,
            },
        ],
        current: None,
    }
}

/// The record after the tab in front, if it is another than `label`, was
/// hidden.
pub open spec fn hide_current(m: ControllerModel, label: Seq<char>) -> Seq<SurfaceModel> {
    match m.current {
        Some(previous) => if previous != label {
            after_set_visibility(m.surfaces, previous, Visibility::Hidden)
        } else {
            m.surfaces
        },
        None => m.surfaces,
    }
}

/// The command that hides the tab in front, if it is another than `label`.
pub open spec fn hide_current_commands(m: ControllerModel, label: Seq<char>) -> Seq<
    HostCommandModel,
> {
    match m.current {
        Some(previous) => if previous != label {
            seq![HostCommandModel::Hide { label: previous }]
        } else {
            Seq::empty()
        },
        None => Seq::empty(),
    }
}

/// The controller after `label` was brought to the front.
pub open spec fn bring_forward(m: ControllerModel, label: Seq<char>) -> ControllerModel {
    ControllerModel {
        surfaces: after_set_visibility(hide_current(m, label), label, Visibility::Visible),
        current: Some(label),
    }
}

/// The commands that bring `label` to the front: hide the tab that was there,
/// show the new one, give it the focus and raise it.
pub open spec fn bring_forward_commands(m: ControllerModel, label: Seq<char>) -> Seq<
    HostCommandModel,
> {
    hide_current_commands(m, label) + seq![
        HostCommandModel::Show { label },
        HostCommandModel::Focus { label },
        HostCommandModel::EnforceForeground { label },
    ]
}

/// The controller after a switch to `label`: unchanged unless `label` names a
/// live tab.
pub open spec fn after_switch(m: ControllerModel, label: Seq<char>) -> ControllerModel {
    if live_tab(m.surfaces, label) {
        bring_forward(m, label)
    } else {
        m
    }
}

/// The commands of a switch to `label`.
pub open spec fn switch_commands(m: ControllerModel, label: Seq<char>) -> Seq<HostCommandModel> {
    if live_tab(m.surfaces, label) {
        bring_forward_commands(m, label)
    } else {
        Seq::empty()
    }
}

/// The controller after `label` was closed: unchanged unless `label` names a
/// live tab. No other tab comes to the front in its place.
pub open spec fn after_close_tab(m: ControllerModel, label: Seq<char>) -> ControllerModel {
    if live_tab(m.surfaces, label) {
        ControllerModel {
            surfaces: after_close(m.surfaces, label),
            current: if m.current == Some(label) {
                None
            } else {
                m.current
            },
        }
    } else {
        m
    }
}

/// The commands of closing `label`.
pub open spec fn close_commands(m: ControllerModel, label: Seq<char>) -> Seq<HostCommandModel> {
    if live_tab(m.surfaces, label) {
        seq![
            HostCommandModel::Close { label },
            HostCommandModel::Emit { event: LifecycleEventModel::TabClosed { label } },
        ]
    } else {
        Seq::empty()
    }
}

/// What the first step of creating the tab `label` at the canonical address
/// `url` answers, given the layout of the window and what the address parser
/// has against the address.
pub open spec fn plan_answer(
    m: ControllerModel,
    label: Seq<char>,
    url: Seq<char>,
    layout: Result<GeometryModel, GeometryError>,
    complaint: Option<Seq<char>>,
) -> Result<CreatePlanModel, CreateErrorModel> {
    if registered(m.surfaces, label) {
        Ok(CreatePlanModel::AlreadyExists)
    } else {
        match layout {
            Err(e) => Err(CreateErrorModel::Geometry(e)),
            Ok(geometry) => match complaint {
                Some(reason) => Err(
                    CreateErrorModel::Creation(CreationFailureModel::InvalidUrl { reason }),
                ),
                None => Ok(
                    CreatePlanModel::Create {
                        pending: PendingTabModel { label, url, rect: geometry.secondary },
                        commands: seq![
                            HostCommandModel::Resize {
                                label: primary_label(),
                                rect: geometry.primary,
                            },
                            HostCommandModel::Create { label, url, rect: geometry.secondary },
                        ],
                    },
                ),
            },
        }
    }
}

/// The controller after the first step of a creation: the tab is entered
/// where the answer is a plan to create it, and nothing changes otherwise.
pub open spec fn after_plan(
    m: ControllerModel,
    label: Seq<char>,
    url: Seq<char>,
    layout: Result<GeometryModel, GeometryError>,
    complaint: Option<Seq<char>>,
) -> ControllerModel {
    match plan_answer(m, label, url, layout, complaint) {
        Ok(CreatePlanModel::Create { .. }) => ControllerModel {
            surfaces: after_reserve(m.surfaces, label, SurfaceKind::Tab),
            current: m.current,
        },
        _ => m,
    }
}

/// The script that sends a fresh surface to its address: the address as JSON
/// text where there is one, and between apostrophes otherwise.
pub open spec fn replace_script(url: Seq<char>, json: Option<Seq<char>>) -> Seq<char> {
    "window.location.replace("@ + match json {
        Some(text) => text,
        None => "'"@ + url + "'"@,
    } + ")"@
}

/// The controller after the second step of a creation.
///
/// Where no creation of the label is under way, nothing changes. Where the
/// host layer failed, the entry is taken out again. Where it succeeded, the
/// tab becomes live and comes to the front.
pub open spec fn after_complete(
    m: ControllerModel,
    label: Seq<char>,
    succeeded: bool,
) -> ControllerModel {
    if !is_pending(m.surfaces, label) {
        m
    } else if succeeded {
        bring_forward(
            ControllerModel { surfaces: after_commit(m.surfaces, label), current: m.current },
            label,
        )
    } else {
        ControllerModel { surfaces: after_abort(m.surfaces, label), current: m.current }
    }
}

/// The commands of the second step of a creation that succeeded: bring the
/// tab to the front, load its address, put it in its place, tell the
/// listeners and, unless the address is a page of the application, probe the
/// address. None where no creation of the label is under way.
pub open spec fn complete_commands(
    m: ControllerModel,
    pending: PendingTabModel,
    json: Option<Seq<char>>,
) -> Seq<HostCommandModel> {
    if !is_pending(m.surfaces, pending.label) {
        Seq::empty()
    } else {
        bring_forward_commands(m, pending.label) + seq![
            HostCommandModel::Evaluate {
                label: pending.label,
                script: replace_script(pending.url, json),
            },
            HostCommandModel::Reposition { label: pending.label, rect: pending.rect },
            HostCommandModel::Emit {
                event: LifecycleEventModel::TabCreated { label: pending.label, url: pending.url },
            },
        ] + probe_commands(pending.label, pending.url)
    }
}

/// The commands that put every live tab of the record at `rect`, in the
/// order of the record.
pub open spec fn reposition_commands(surfaces: Seq<SurfaceModel>, rect: RectModel) -> Seq<
    HostCommandModel,
>
    decreases surfaces.len(),
{
    if surfaces.len() == 0 {
        Seq::empty()
    } else {
        reposition_commands(surfaces.drop_last(), rect) + if is_live_tab(surfaces.last()) {
            seq![HostCommandModel::Reposition { label: surfaces.last().label, rect }]
        } else {
            Seq::empty()
        }
    }
}

/// The panel state at the start: tabs along the top, and nothing open.
pub open spec fn initial_panel() -> PanelState {
    PanelState { sidebar_open: false, suggestions_height: 0, vertical_tabs: false }
}

/// The command that gives the primary surface its size at the start: the bar
/// across the top of the window at its base height.
pub open spec fn initial_commands(geometry: GeometryModel) -> Seq<HostCommandModel> {
    seq![HostCommandModel::Resize { label: primary_label(), rect: geometry.primary }]
}

/// The commands of a new layout: size the primary surface, give it the focus
/// where the overlay panel is open, and put every live tab at the tab region,
/// visible or not.
pub open spec fn layout_commands(
    surfaces: Seq<SurfaceModel>,
    geometry: GeometryModel,
    panel_open: bool,
) -> Seq<HostCommandModel> {
    seq![HostCommandModel::Resize { label: primary_label(), rect: geometry.primary }] + if panel_open {
        seq![HostCommandModel::Focus { label: primary_label() }]
    } else {
        Seq::empty()
    } + reposition_commands(surfaces, geometry.secondary)
}

/// Hiding the tab in front keeps every label where it is and keeps the record
/// well formed.
proof fn lemma_hide_current(m: ControllerModel, label: Seq<char>)
    requires
        coherent(m),
    ensures
        well_formed(hide_current(m, label)),
        hide_current(m, label).len() == m.surfaces.len(),
        forall|l: Seq<char>|
            registered(hide_current(m, label), l) == registered(m.surfaces, l),
        forall|l: Seq<char>|
            registered(m.surfaces, l) ==> index_of(hide_current(m, label), l) == index_of(
                m.surfaces,
                l,
            ),
        m.current is Some ==> resolved(m.surfaces, m.current->0) is Some,
        forall|i: int|
            0 <= i < m.surfaces.len() ==> {
                &&& (#[trigger] hide_current(m, label)[i]).label == m.surfaces[i].label
                &&& hide_current(m, label)[i].kind == m.surfaces[i].kind
                &&& (m.surfaces[i].lifecycle_state is Creating <==> hide_current(
                    m,
                    label,
                )[i].lifecycle_state is Creating)
                &&& (m.surfaces[i].kind is Tab && m.surfaces[i].label != label ==> hide_current(
                    m,
                    label,
                )[i].visibility is Hidden)
                &&& (m.surfaces[i].label == label || !(m.surfaces[i].kind is Tab)
                    ==> hide_current(m, label)[i] == m.surfaces[i])
            },
{
    if m.current is Some && m.current->0 != label {
        let previous = m.current->0;
        let o = index_of(m.surfaces, previous);
        lemma_update_keeps_labels(m.surfaces, o, Visibility::Hidden, LifecycleState::Hidden);
        assert forall|i: int| 0 <= i < m.surfaces.len() implies {
            &&& (#[trigger] hide_current(m, label)[i]).label == m.surfaces[i].label
            &&& hide_current(m, label)[i].kind == m.surfaces[i].kind
            &&& (m.surfaces[i].lifecycle_state is Creating <==> hide_current(
                m,
                label,
            )[i].lifecycle_state is Creating)
            &&& (m.surfaces[i].kind is Tab && m.surfaces[i].label != label ==> hide_current(
                m,
                label,
            )[i].visibility is Hidden)
            &&& (m.surfaces[i].label == label || !(m.surfaces[i].kind is Tab) ==> hide_current(
                m,
                label,
            )[i] == m.surfaces[i])
        } by {
            if i != o {
                assert(hide_current(m, label)[i] == m.surfaces[i]);
                if m.surfaces[i].kind is Tab {
                    lemma_index_of_is_place(m.surfaces, i);
                }
            }
        }
    } else {
        assert forall|i: int|
            0 <= i < m.surfaces.len() && (#[trigger] m.surfaces[i]).kind is Tab
                && m.surfaces[i].label != label implies m.surfaces[i].visibility is Hidden by {}
    }
}

/// Bringing a live tab to the front keeps the controller coherent, leaves that tab
/// active and the pointer on it.
pub proof fn lemma_bring_forward(m: ControllerModel, label: Seq<char>)
    requires
        coherent(m),
        live_tab(m.surfaces, label),
    ensures
        coherent(bring_forward(m, label)),
        bring_forward(m, label).current == Some(label),
        resolved(hide_current(m, label), label) is Some,
        resolved(bring_forward(m, label).surfaces, label) is Some,
        resolved(bring_forward(m, label).surfaces, label)->0.lifecycle_state is Active,
        resolved(bring_forward(m, label).surfaces, label)->0.visibility is Visible,
{
    let t = index_of(m.surfaces, label);
    let s1 = hide_current(m, label);
    lemma_hide_current(m, label);
    assert(s1[t] == m.surfaces[t]);
    lemma_update_keeps_labels(s1, t, Visibility::Visible, LifecycleState::Active);
    let after = bring_forward(m, label);
    let s2 = after.surfaces;
    assert(s2 == s1.update(
        t,
        SurfaceModel {
            visibility: Visibility::Visible,
            lifecycle_state: LifecycleState::Active,
            ..s1[t]
        },
    ));
    assert(index_of(s2, label) == t);
    assert forall|i: int| 0 <= i < s2.len() && (#[trigger] s2[i]).kind is Tab implies (
    s2[i].visibility is Visible <==> after.current == Some(s2[i].label)) by {
        if i != t {
            assert(s2[i] == s1[i]);
            lemma_index_of_is_place(m.surfaces, i);
        }
    }
    assert forall|i: int|
        0 <= i < s2.len() && (#[trigger] s2[i]).lifecycle_state is Creating implies s2[i].kind is Tab by {
        if i != t {
            assert(s2[i] == s1[i]);
            assert(m.surfaces[i].lifecycle_state is Creating);
        }
    }
}

/// Entering a tab under a free label keeps the controller coherent.
pub proof fn lemma_reserve_keeps_coherent(m: ControllerModel, label: Seq<char>)
    requires
        coherent(m),
        !registered(m.surfaces, label),
    ensures
        coherent(
            ControllerModel {
                surfaces: after_reserve(m.surfaces, label, SurfaceKind::Tab),
                current: m.current,
            },
        ),
        is_pending(after_reserve(m.surfaces, label, SurfaceKind::Tab), label),
{
    let s2 = after_reserve(m.surfaces, label, SurfaceKind::Tab);
    let n = m.surfaces.len() as int;
    assert(s2[n].label == label);
    assert forall|i: int, j: int|
        0 <= i < s2.len() && 0 <= j < s2.len() && i != j implies #[trigger] s2[i].label
        != #[trigger] s2[j].label by {
        if i < n {
            assert(s2[i] == m.surfaces[i]);
        }
        if j < n {
            assert(s2[j] == m.surfaces[j]);
        }
    }
    assert forall|i: int| 0 <= i < s2.len() implies is_consistent(#[trigger] s2[i]) by {
        if i < n {
            assert(s2[i] == m.surfaces[i]);
        }
    }
    lemma_index_of_is_place(s2, n);
    assert forall|i: int| 0 <= i < s2.len() && (#[trigger] s2[i]).kind is Tab implies (
    s2[i].visibility is Visible <==> m.current == Some(s2[i].label)) by {
        if i < n {
            assert(s2[i] == m.surfaces[i]);
        } else {
            if m.current == Some(label) {
                assert(registered(m.surfaces, label));
            }
        }
    }
    assert forall|i: int|
        0 <= i < s2.len() && (#[trigger] s2[i]).lifecycle_state is Creating implies s2[i].kind is Tab by {
        if i < n {
            assert(s2[i] == m.surfaces[i]);
        }
    }
    if m.current is Some {
        let c = m.current->0;
        let k = index_of(m.surfaces, c);
        assert(s2[k] == m.surfaces[k]);
        lemma_index_of_is_place(s2, k);
    }
}

/// Making a tab in creation live keeps the controller coherent; the tab is live and
/// hidden afterwards.
pub proof fn lemma_commit_keeps_coherent(m: ControllerModel, label: Seq<char>)
    requires
        coherent(m),
        is_pending(m.surfaces, label),
    ensures
        coherent(
            ControllerModel { surfaces: after_commit(m.surfaces, label), current: m.current },
        ),
        live_tab(after_commit(m.surfaces, label), label),
{
    let t = index_of(m.surfaces, label);
    let s2 = after_commit(m.surfaces, label);
    lemma_update_keeps_labels(m.surfaces, t, Visibility::Hidden, LifecycleState::Hidden);
    assert(s2 =~= m.surfaces.update(
        t,
        SurfaceModel {
            visibility: Visibility::Hidden,
            lifecycle_state: LifecycleState::Hidden,
            ..m.surfaces[t]
        },
    ));
    assert forall|i: int| 0 <= i < s2.len() && (#[trigger] s2[i]).kind is Tab implies (
    s2[i].visibility is Visible <==> m.current == Some(s2[i].label)) by {
        if i != t {
            assert(s2[i] == m.surfaces[i]);
        }
    }
    assert forall|i: int|
        0 <= i < s2.len() && (#[trigger] s2[i]).lifecycle_state is Creating implies s2[i].kind is Tab by {
        if i != t {
            assert(s2[i] == m.surfaces[i]);
        }
    }
    if m.current is Some {
        let c = m.current->0;
        let k = index_of(m.surfaces, c);
        assert(k != t);
        assert(s2[k] == m.surfaces[k]);
    }
}

/// The tab controller.
pub struct TabLifecycleController {
    registry: SurfaceRegistry,
    current_tab: Option<String>,
}

impl View for TabLifecycleController {
    type V = ControllerModel;

    closed spec fn view(&self) -> ControllerModel {
        ControllerModel {
            surfaces: self.registry@,
            current: match self.current_tab {
                Some(label) => Some(label@),
                None => None,
            },
        }
    }
}

/// The script that sends a fresh surface to `url`, given the JSON text of the
/// address where there is one.
pub fn navigation_script(url: &str, json: Option<String>) -> (script: String)
    ensures
        script@ == replace_script(
            url@,
            optional_text(json),
        ),
{
    let mut script = String::from_str("window.location.replace(");
    match json {
        Some(text) => {
            script.append(text.as_str());
        },
        None => {
            let ghost before = script@;
            script.append("'");
            script.append(url);
            script.append("'");
            assert(script@ =~= before + ("'"@ + url@ + "'"@));
        },
    }
    script.append(")");
    script
}

impl TabLifecycleController {
    /// The controller keeps its [`coherent`] rule.
    pub open spec fn wf(&self) -> bool {
        coherent(self@)
    }

    /// A controller that knows the primary surface and no tab.
    pub fn new() -> (controller: Self)
        ensures
            controller.wf(),
            controller@ == initial_model(),
    {
        let mut registry = SurfaceRegistry::new();
        let ghost primary = SurfaceModel {
            label: primary_label(),
            kind: SurfaceKind::Primary,
            visibility: Visibility::Hidden,
            lifecycle_state: LifecycleState::Creating,
        };
        proof {
            assert(!registered(registry@, primary_label()));
        }
        registry.reserve("main", SurfaceKind::Primary);
        proof {
            assert(registry@ =~= seq![primary]);
            assert(registry@[0].label == primary_label());
            lemma_index_of_is_place(registry@, 0);
        }
        registry.commit("main");
        proof {
            assert(registry@[0].label == primary_label());
            lemma_index_of_is_place(registry@, 0);
        }
        registry.set_visibility("main", Visibility::Visible);
        let controller = TabLifecycleController { registry, current_tab: None };
        proof {
            assert(controller@.surfaces =~= initial_model().surfaces);
        }
        controller
    }

    /// The record of surfaces, to look things up in.
    pub fn registry(&self) -> (registry: &SurfaceRegistry)
        requires
            self.wf(),
        ensures
            registry.wf(),
            registry@ == self@.surfaces,
    {
        &self.registry
    }

    /// The label of the tab in front, if there is one.
    pub fn current_tab(&self) -> (label: Option<&String>)
        ensures
            match label {
                Some(l) => self@.current == Some(l@),
                None => self@.current is None,
            },
    {
        self.current_tab.as_ref()
    }

    fn names_live_tab(&self, label: &str) -> (found: bool)
        requires
            self.wf(),
        ensures
            found == live_tab(self@.surfaces, label@),
    {
        match self.registry.resolve(label) {
            Some(surface) => match surface.kind {
                SurfaceKind::Tab => true,
                _ => false,
            },
            None => false,
        }
    }

    fn raise(&mut self, label: &str) -> (commands: Vec<HostCommand>)
        requires
            old(self).wf(),
            live_tab(old(self)@.surfaces, label@),
        ensures
            final(self).wf(),
            final(self)@ == bring_forward(old(self)@, label@),
            commands_model(commands@) == bring_forward_commands(old(self)@, label@),
    {
        let ghost m = self@;
        proof {
            lemma_bring_forward(m, label@);
            lemma_hide_current(m, label@);
        }
        let mut commands: Vec<HostCommand> = Vec::new();
        let key = label.to_owned();
        let previous: Option<String> = match &self.current_tab {
            Some(p) => Some(p.clone()),
            None => None,
        };
        match previous {
            Some(p) => {
                if !(p == key) {
                    match self.registry.set_visibility(p.as_str(), Visibility::Hidden) {
                        Some(c) => {
                            commands.push(c);
                        },
                        None => {},
                    }
                }
            },
            None => {},
        }
        assert(self.registry@ == hide_current(m, label@));
        assert(commands_model(commands@) =~= hide_current_commands(m, label@));
        let ghost hidden = commands@;
        match self.registry.set_visibility(label, Visibility::Visible) {
            Some(c) => {
                commands.push(c);
            },
            None => {},
        }
        commands.push(HostCommand::Focus { label: label.to_owned() });
        match self.registry.enforce_foreground(label) {
            Some(c) => {
                commands.push(c);
            },
            None => {},
        }
        self.current_tab = Some(key);
        proof {
            assert(self@.surfaces == bring_forward(m, label@).surfaces);
            assert(self@ == bring_forward(m, label@));
            assert(commands_model(commands@) =~= bring_forward_commands(m, label@));
        }
        commands
    }

    /// The first step of creating the tab `label`, given what the address
    /// parser has against the canonical address `url`.
    ///
    /// A label that is taken, by a surface of any kind and in any state,
    /// changes nothing. Otherwise the window must have a layout and the
    /// address must have parsed; then the tab is entered, not yet live, and
    /// the plan hands back what the host layer is to do.
    pub fn plan_create(
        &mut self,
        label: &str,
        url: String,
        window: WindowSize,
        panel: PanelState,
        complaint: Option<String>,
    ) -> (answer: Result<CreatePlan, CreateError>)
        requires
            old(self).wf(),
        ensures
            final(self).wf(),
            final(self)@ == after_plan(
                old(self)@,
                label@,
                url@,
                layout_result(window, panel),
                optional_text(complaint),
            ),
            match answer {
                Ok(plan) => Ok::<CreatePlanModel, CreateErrorModel>(plan@),
                Err(e) => Err::<CreatePlanModel, CreateErrorModel>(e@),
            } == plan_answer(
                old(self)@,
                label@,
                url@,
                layout_result(window, panel),
                optional_text(complaint),
            ),
    {
        if self.registry.is_registered(label) {
            return Ok(CreatePlan::AlreadyExists);
        }
        let geometry = match calculate_layout(window, panel) {
            Ok(geometry) => geometry,
            Err(e) => {
                return Err(CreateError::Geometry(e));
            },
        };
        match complaint {
            Some(reason) => {
                return Err(CreateError::Creation(CreationFailure::InvalidUrl { reason }));
            },
            None => {},
        }
        proof {
            lemma_reserve_keeps_coherent(self@, label@);
        }
        self.registry.reserve(label, SurfaceKind::Tab);
        let mut commands: Vec<HostCommand> = Vec::new();
        commands.push(HostCommand::Resize { label: "main".to_owned(), rect: geometry.primary });
        commands.push(
            HostCommand::Create {
                label: label.to_owned(),
                url: url.clone(),
                rect: geometry.secondary,
            },
        );
        let pending = PendingTab { label: label.to_owned(), url, rect: geometry.secondary };
        let plan = CreatePlan::Create { pending, commands };
        proof {
            assert(commands_model(commands@) =~= seq![
                HostCommandModel::Resize { label: primary_label(), rect: geometry@.primary },
                HostCommandModel::Create {
                    label: label@,
                    url: url@,
                    rect: geometry@.secondary,
                },
            ]);
        }
        Ok(plan)
    }

    /// The first step of creating the tab `label` at `destination`.
    ///
    /// The destination is put in its canonical form and parsed as an
    /// address; the rest is [`TabLifecycleController::plan_create`].
    pub fn begin_create(
        &mut self,
        label: &str,
        destination: &str,
        window: WindowSize,
        panel: PanelState,
    ) -> (answer: Result<CreatePlan, CreateError>)
        requires
            old(self).wf(),
        ensures
            final(self).wf(),
            final(self)@ == after_plan(
                old(self)@,
                label@,
                normalized(destination@),
                layout_result(window, panel),
                url_parse_error(normalized(destination@)),
            ),
            match answer {
                Ok(plan) => Ok::<CreatePlanModel, CreateErrorModel>(plan@),
                Err(e) => Err::<CreatePlanModel, CreateErrorModel>(e@),
            } == plan_answer(
                old(self)@,
                label@,
                normalized(destination@),
                layout_result(window, panel),
                url_parse_error(normalized(destination@)),
            ),
    {
        let url = normalize_url(destination);
        let complaint = parse_url(url.as_str());
        self.plan_create(label, url, window, panel, complaint)
    }

    /// The second step of a creation, given the JSON text of the tab's
    /// address where there is one.
    ///
    /// Where no creation of the label is under way, nothing changes; a failure
    /// is handed back and a success yields no command. Where the host layer
    /// failed, the entry is taken out again, no command and no event goes
    /// out, and the failure is handed back. Where it succeeded, the tab in
    /// front is hidden, the new tab becomes live and comes to the front.
    pub fn finish_create(
        &mut self,
        pending: PendingTab,
        outcome: Result<(), CreationFailure>,
        json: Option<String>,
    ) -> (answer: Result<Vec<HostCommand>, CreationFailure>)
        requires
            old(self).wf(),
        ensures
            final(self).wf(),
            final(self)@ == after_complete(old(self)@, pending@.label, outcome is Ok),
            match answer {
                Ok(commands) => outcome is Ok && commands_model(commands@) == complete_commands(
                    old(self)@,
                    pending@,
                    optional_text(json),
                ),
                Err(failure) => outcome is Err && failure@ == outcome->Err_0@,
            },
    {
        let ghost m = self@;
        let ghost json_model: Option<Seq<char>> = optional_text(json);
        match outcome {
            Err(failure) => {
                proof {
                    if is_pending(m.surfaces, pending@.label) {
                        crate::laws::lemma_remove_takes_tab_out(m, pending@.label);
                        assert(m.current != Some(pending@.label));
                    }
                }
                self.registry.abort(pending.label.as_str());
                Err(failure)
            },
            Ok(_) => {
                proof {
                    if is_pending(m.surfaces, pending@.label) {
                        lemma_commit_keeps_coherent(m, pending@.label);
                    }
                }
                if !self.registry.commit(pending.label.as_str()) {
                    return Ok(Vec::new());
                }
                let ghost committed = self@;
                let mut commands = self.raise(pending.label.as_str());
                let ghost raised = commands@;
                let script = navigation_script(pending.url.as_str(), json);
                commands.push(HostCommand::Evaluate { label: pending.label.clone(), script });
                commands.push(
                    HostCommand::Reposition { label: pending.label.clone(), rect: pending.rect },
                );
                commands.push(
                    HostCommand::Emit {
                        event: LifecycleEvent::TabCreated(
                            TabCreatedPayload {
                                label: pending.label.clone(),
                                url: pending.url.clone(),
                            },
                        ),
                    },
                );
                let ghost created = commands@;
                if !is_internal_url(pending.url.as_str()) {
                    commands.push(
                        HostCommand::Probe {
                            label: pending.label.clone(),
                            url: pending.url.clone(),
                        },
                    );
                }
                proof {
                    assert(hide_current_commands(committed, pending@.label)
                        == hide_current_commands(m, pending@.label));
                    assert(commands_model(created) =~= commands_model(raised) + seq![
                        HostCommandModel::Evaluate {
                            label: pending@.label,
                            script: replace_script(pending@.url, json_model),
                        },
                        HostCommandModel::Reposition {
                            label: pending@.label,
                            rect: pending@.rect,
                        },
                        HostCommandModel::Emit {
                            event: LifecycleEventModel::TabCreated {
                                label: pending@.label,
                                url: pending@.url,
                            },
                        },
                    ]);
                    assert(commands_model(commands@) =~= commands_model(created)
                        + probe_commands(pending@.label, pending@.url));
                }
                Ok(commands)
            },
        }
    }

    /// The second step of a creation: takes what the host layer answered.
    ///
    /// The address is turned into JSON text for the script that loads it; the
    /// rest is [`TabLifecycleController::finish_create`].
    pub fn complete_create(&mut self, pending: PendingTab, outcome: Result<(), CreationFailure>) -> (answer:
        Result<Vec<HostCommand>, CreationFailure>)
        requires
            old(self).wf(),
        ensures
            final(self).wf(),
            final(self)@ == after_complete(old(self)@, pending@.label, outcome is Ok),
            match answer {
                Ok(commands) => outcome is Ok && commands_model(commands@) == complete_commands(
                    old(self)@,
                    pending@,
                    json_text(pending@.url),
                ),
                Err(failure) => outcome is Err && failure@ == outcome->Err_0@,
            },
    {
        let json = match to_json(&pending.url) {
            Ok(text) => Some(text),
            Err(_) => None,
        };
        self.finish_create(pending, outcome, json)
    }

    /// Brings the tab `label` to the front.
    ///
    /// A label that names no live tab changes nothing and yields no command.
    /// Otherwise the tab that was in front is hidden, `label` is shown,
    /// focused and raised, and the pointer names it.
    pub fn switch_tab(&mut self, label: &str) -> (commands: Vec<HostCommand>)
        requires
            old(self).wf(),
        ensures
            final(self).wf(),
            final(self)@ == after_switch(old(self)@, label@),
            commands_model(commands@) == switch_commands(old(self)@, label@),
    {
        if !self.names_live_tab(label) {
            let commands: Vec<HostCommand> = Vec::new();
            assert(commands_model(commands@) =~= Seq::<HostCommandModel>::empty());
            return commands;
        }
        self.raise(label)
    }

    /// Closes the tab `label`.
    ///
    /// A label that names no live tab changes nothing and yields no command.
    /// Otherwise the tab leaves the record, the host layer is told to destroy
    /// it and the listeners are told that it is gone. Where it was the tab in
    /// front, no tab is in front afterwards.
    pub fn close_tab(&mut self, label: &str) -> (commands: Vec<HostCommand>)
        requires
            old(self).wf(),
        ensures
            final(self).wf(),
            final(self)@ == after_close_tab(old(self)@, label@),
            commands_model(commands@) == close_commands(old(self)@, label@),
    {
        let mut commands: Vec<HostCommand> = Vec::new();
        if !self.names_live_tab(label) {
            assert(commands_model(commands@) =~= Seq::<HostCommandModel>::empty());
            return commands;
        }
        let ghost m = self@;
        proof {
            crate::laws::lemma_remove_takes_tab_out(m, label@);
        }
        self.registry.close(label);
        let key = label.to_owned();
        let was_current = match &self.current_tab {
            Some(current) => *current == key,
            None => false,
        };
        if was_current {
            self.current_tab = None;
        }
        commands.push(HostCommand::Close { label: label.to_owned() });
        commands.push(
            HostCommand::Emit {
                event: LifecycleEvent::TabClosed(TabClosedPayload { label: key }),
            },
        );
        proof {
            assert(self@ == after_close_tab(m, label@));
            assert(commands_model(commands@) =~= close_commands(m, label@));
        }
        commands
    }

    /// Gives the primary surface its size at the start: the bar across the top
    /// of the window at its base height, whatever the panels say later. No
    /// tab is touched. A malformed window size is refused.
    pub fn init_browser(&self, window: WindowSize) -> (answer: Result<
        Vec<HostCommand>,
        GeometryError,
    >)
        ensures
            match answer {
                Ok(commands) => layout_result(window, initial_panel()) is Ok && commands_model(
                    commands@,
                ) == initial_commands(layout_result(window, initial_panel())->Ok_0),
                Err(e) => layout_result(window, initial_panel()) == Err::<
                    GeometryModel,
                    GeometryError,
                >(e),
            },
    {
        let panel = PanelState { sidebar_open: false, suggestions_height: 0, vertical_tabs: false };
        let geometry = match calculate_layout(window, panel) {
            Ok(geometry) => geometry,
            Err(e) => {
                return Err(e);
            },
        };
        let mut commands: Vec<HostCommand> = Vec::new();
        commands.push(HostCommand::Resize { label: "main".to_owned(), rect: geometry.primary });
        assert(commands_model(commands@) =~= initial_commands(geometry@));
        Ok(commands)
    }

    /// Lays the surfaces out anew, after the window or a panel has changed.
    ///
    /// A malformed window size is refused. Otherwise the primary surface gets
    /// its size, and the focus where the overlay panel is open, and every live
    /// tab is put at the tab region whether it is visible or not, so that the
    /// next tab to come forward already has its place.
    pub fn update_layout(&self, window: WindowSize, panel: PanelState) -> (answer: Result<
        Vec<HostCommand>,
        GeometryError,
    >)
        requires
            self.wf(),
        ensures
            match answer {
                Ok(commands) => layout_result(window, panel) is Ok && commands_model(commands@)
                    == layout_commands(
                    self@.surfaces,
                    layout_result(window, panel)->Ok_0,
                    panel.sidebar_open,
                ),
                Err(e) => layout_result(window, panel) == Err::<GeometryModel, GeometryError>(e),
            },
    {
        let geometry = match calculate_layout(window, panel) {
            Ok(geometry) => geometry,
            Err(e) => {
                return Err(e);
            },
        };
        let mut commands: Vec<HostCommand> = Vec::new();
        commands.push(HostCommand::Resize { label: "main".to_owned(), rect: geometry.primary });
        if panel.sidebar_open {
            commands.push(HostCommand::Focus { label: "main".to_owned() });
        }
        let ghost head = commands_model(commands@);
        let ghost surfaces = self.registry@;
        let n = self.registry.len();
        let mut i: usize = 0;
        proof {
            assert(surfaces.take(0) =~= Seq::<SurfaceModel>::empty());
            assert(commands_model(commands@) =~= head + reposition_commands(
                surfaces.take(0),
                geometry@.secondary,
            ));
        }
        while i < n
            invariant
                i <= n,
                n == surfaces.len(),
                surfaces == self.registry@,
                commands_model(commands@) == head + reposition_commands(
                    surfaces.take(i as int),
                    geometry@.secondary,
                ),
            decreases n - i,
        {
            let surface = self.registry.get(i);
            let ghost before = commands@;
            let live = match surface.lifecycle_state {
                LifecycleState::Active | LifecycleState::Hidden => true,
                _ => false,
            };
            let tab = match surface.kind {
                SurfaceKind::Tab => true,
                _ => false,
            };
            if live && tab {
                commands.push(
                    HostCommand::Reposition {
                        label: surface.label.clone(),
                        rect: geometry.secondary,
                    },
                );
            }
            proof {
                assert(surfaces.take(i + 1).drop_last() =~= surfaces.take(i as int));
                assert(surfaces.take(i + 1).last() == surfaces[i as int]);
                if live && tab {
                    assert(commands_model(commands@) =~= commands_model(before) + seq![
                        HostCommandModel::Reposition {
                            label: surfaces[i as int].label,
                            rect: geometry@.secondary,
                        },
                    ]);
                } else {
                    assert(commands_model(commands@) =~= commands_model(before)
                        + Seq::<HostCommandModel>::empty());
                }
                assert(commands_model(commands@) =~= head + reposition_commands(
                    surfaces.take(i + 1),
                    geometry@.secondary,
                ));
            }
            i += 1;
        }
        proof {
            assert(surfaces.take(n as int) =~= surfaces);
            assert(head =~= seq![
                HostCommandModel::Resize { label: primary_label(), rect: geometry@.primary },
            ] + if panel.sidebar_open {
                seq![HostCommandModel::Focus { label: primary_label() }]
            } else {
                Seq::<HostCommandModel>::empty()
            });
        }
        Ok(commands)
    }
}

} // verus!
