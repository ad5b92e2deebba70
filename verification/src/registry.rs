//! The record of which surfaces exist, by label.
//!
//! A label names at most one surface at a time. A surface is entered when its
//! creation begins and is not yet live then: it cannot be looked up, shown,
//! moved or closed. It becomes live when the host layer has made it, and it
//! leaves the record for good when it is closed or when its creation fails.
//! The same label may be entered again later; that is another surface.

use vstd::prelude::*;
use crate::host::HostCommand;
use crate::host::HostCommandModel;
use crate::layout::Rect;

verus! {

/// What a surface is for.
#[derive(Clone, Copy, Debug, PartialEq, Eq, Structural)]
pub enum SurfaceKind {
    /// The control surface of the window.
    Primary,
    /// A page that the user browses.
    Tab,
    /// A surface outside the tab strip.
    Ephemeral,
}

/// Whether a surface is on screen.
#[derive(Clone, Copy, Debug, PartialEq, Eq, Structural)]
pub enum Visibility {
    Visible,
    Hidden,
}

/// Where a surface stands in its life.
#[derive(Clone, Copy, Debug, PartialEq, Eq, Structural)]
pub enum LifecycleState {
    /// Entered, and the host layer has not made it yet.
    Creating,
    /// Live and in front.
    Active,
    /// Live and out of sight.
    Hidden,
    /// Destroyed. Nothing leads out of this state.
    Closed,
}

/// One native rendering region, as this crate sees it.
#[derive(Debug, PartialEq, Eq)]
pub struct Surface {
    pub label: String,
    pub kind: SurfaceKind,
    pub visibility: Visibility,
    pub lifecycle_state: LifecycleState,
}

/// A [`Surface`] whose label is a sequence of characters.
pub struct SurfaceModel {
    pub label: Seq<char>,
    pub kind: SurfaceKind,
    pub visibility: Visibility,
    pub lifecycle_state: LifecycleState,
}

impl View for Surface {
    type V = SurfaceModel;

    open spec fn view(&self) -> SurfaceModel {
        SurfaceModel {
            label: self.label@,
            kind: self.kind,
            visibility: self.visibility,
            lifecycle_state: self.lifecycle_state,
        }
    }
}

impl Clone for Surface {
    fn clone(&self) -> (copy: Self)
        ensures
            copy@ == self@,
    {
        Surface {
            label: self.label.clone(),
            kind: self.kind,
            visibility: self.visibility,
            lifecycle_state: self.lifecycle_state,
        }
    }
}

/// The surface can be looked up and commanded.
pub open spec fn is_live(surface: SurfaceModel) -> bool {
    surface.lifecycle_state is Active || surface.lifecycle_state is Hidden
}

/// The visibility that goes with a state of life. No record holds a closed
/// surface.
pub open spec fn is_consistent(surface: SurfaceModel) -> bool {
    match surface.lifecycle_state {
        LifecycleState::Creating => surface.visibility is Hidden,
        LifecycleState::Active => surface.visibility is Visible,
        LifecycleState::Hidden => surface.visibility is Hidden,
        LifecycleState::Closed => false,
    }
}

/// Some surface of the record carries `label`.
pub open spec fn registered(surfaces: Seq<SurfaceModel>, label: Seq<char>) -> bool {
    exists|i: int| 0 <= i < surfaces.len() && #[trigger] surfaces[i].label == label
}

/// The place of the surface that carries `label`, where there is one.
pub open spec fn index_of(surfaces: Seq<SurfaceModel>, label: Seq<char>) -> int {
    choose|i: int| 0 <= i < surfaces.len() && #[trigger] surfaces[i].label == label
}

/// No two surfaces of the record carry the same label.
pub open spec fn labels_unique(surfaces: Seq<SurfaceModel>) -> bool {
    forall|i: int, j: int|
        0 <= i < surfaces.len() && 0 <= j < surfaces.len() && i != j ==> #[trigger] surfaces[i].label
            != #[trigger] surfaces[j].label
}

/// What every record keeps: labels are unique, and each surface's visibility
/// goes with its state of life.
pub open spec fn well_formed(surfaces: Seq<SurfaceModel>) -> bool {
    &&& labels_unique(surfaces)
    &&& forall|i: int| 0 <= i < surfaces.len() ==> is_consistent(#[trigger] surfaces[i])
}

/// How many surfaces of the record carry `label`.
pub open spec fn count_of(surfaces: Seq<SurfaceModel>, label: Seq<char>) -> nat
    decreases surfaces.len(),
{
    if surfaces.len() == 0 {
        0
    } else {
        count_of(surfaces.drop_last(), label) + if surfaces.last().label == label {
            1nat
        } else {
            0nat
        }
    }
}

/// The live surface that `label` names, if there is one.
pub open spec fn resolved(surfaces: Seq<SurfaceModel>, label: Seq<char>) -> Option<SurfaceModel> {
    if registered(surfaces, label) && is_live(surfaces[index_of(surfaces, label)]) {
        Some(surfaces[index_of(surfaces, label)])
    } else {
        None
    }
}

/// The surface that `label` names is entered and not yet live.
pub open spec fn is_pending(surfaces: Seq<SurfaceModel>, label: Seq<char>) -> bool {
    registered(surfaces, label) && surfaces[index_of(
        surfaces,
        label,
    )].lifecycle_state is Creating
}

/// The state of life that goes with a visibility of a live surface.
pub open spec fn state_for(visibility: Visibility) -> LifecycleState {
    match visibility {
        Visibility::Visible => LifecycleState::Active,
        Visibility::Hidden => LifecycleState::Hidden,
    }
}

/// The record after a surface of `kind` was entered under `label`: unchanged
/// where the label is taken.
pub open spec fn after_reserve(
    surfaces: Seq<SurfaceModel>,
    label: Seq<char>,
    kind: SurfaceKind,
) -> Seq<SurfaceModel> {
    if registered(surfaces, label) {
        surfaces
    } else {
        surfaces.push(
            SurfaceModel {
                label,
                kind,
                visibility: Visibility::Hidden,
                lifecycle_state: LifecycleState::Creating,
            },
        )
    }
}

/// The record after the host layer made the surface `label`: it is live and
/// hidden. Unchanged where no creation of that label is under way.
pub open spec fn after_commit(surfaces: Seq<SurfaceModel>, label: Seq<char>) -> Seq<SurfaceModel> {
    if is_pending(surfaces, label) {
        let i = index_of(surfaces, label);
        surfaces.update(
            i,
            SurfaceModel { lifecycle_state: LifecycleState::Hidden, ..surfaces[i] },
        )
    } else {
        surfaces
    }
}

/// The record after the creation of `label` failed: the entry is gone.
/// Unchanged where no creation of that label is under way.
pub open spec fn after_abort(surfaces: Seq<SurfaceModel>, label: Seq<char>) -> Seq<SurfaceModel> {
    if is_pending(surfaces, label) {
        surfaces.remove(index_of(surfaces, label))
    } else {
        surfaces
    }
}

/// The record after the live surface `label` was shown or hidden. Unchanged
/// where the label names no live surface.
pub open spec fn after_set_visibility(
    surfaces: Seq<SurfaceModel>,
    label: Seq<char>,
    visibility: Visibility,
) -> Seq<SurfaceModel> {
    if resolved(surfaces, label) is Some {
        let i = index_of(surfaces, label);
        surfaces.update(
            i,
            SurfaceModel { visibility, lifecycle_state: state_for(visibility), ..surfaces[i] },
        )
    } else {
        surfaces
    }
}

/// The record after the live surface `label` was closed: the entry is gone.
/// Unchanged where the label names no live surface.
pub open spec fn after_close(surfaces: Seq<SurfaceModel>, label: Seq<char>) -> Seq<SurfaceModel> {
    if resolved(surfaces, label) is Some {
        surfaces.remove(index_of(surfaces, label))
    } else {
        surfaces
    }
}

/// The command that shows or hides a surface.
pub open spec fn visibility_command(label: Seq<char>, visibility: Visibility) -> HostCommandModel {
    match visibility {
        Visibility::Visible => HostCommandModel::Show { label },
        Visibility::Hidden => HostCommandModel::Hide { label },
    }
}

/// In a record with unique labels, the surface at place `i` is the one that
/// its label names.
pub proof fn lemma_index_of_is_place(surfaces: Seq<SurfaceModel>, i: int)
    requires
        labels_unique(surfaces),
        0 <= i < surfaces.len(),
    ensures
        registered(surfaces, surfaces[i].label),
        index_of(surfaces, surfaces[i].label) == i,
{
    let label = surfaces[i].label;
    assert(surfaces[i].label == label);
    let j = index_of(surfaces, label);
    assert(0 <= j < surfaces.len() && surfaces[j].label == label);
}

/// A label that is entered is counted once in a record with unique labels, and
/// a label that is not entered is counted zero times.
pub proof fn lemma_count_of_unique(surfaces: Seq<SurfaceModel>, label: Seq<char>)
    requires
        labels_unique(surfaces),
    ensures
        count_of(surfaces, label) == if registered(surfaces, label) {
            1nat
        } else {
            0nat
        },
    decreases surfaces.len(),
{
    if surfaces.len() > 0 {
        let front = surfaces.drop_last();
        let n = front.len() as int;
        assert forall|i: int, j: int|
            0 <= i < front.len() && 0 <= j < front.len() && i != j implies #[trigger] front[i].label
            != #[trigger] front[j].label by {
            assert(front[i] == surfaces[i] && front[j] == surfaces[j]);
        }
        lemma_count_of_unique(front, label);
        if registered(front, label) {
            let k = index_of(front, label);
            assert(surfaces[k] == front[k]);
            assert(surfaces[k].label == label);
            assert(surfaces[n].label != surfaces[k].label);
        } else if surfaces.last().label == label {
            assert(surfaces[n].label == label);
        } else {
            if registered(surfaces, label) {
                let k = index_of(surfaces, label);
                assert(k < n);
                assert(front[k].label == label);
            }
        }
    }
}

/// The record of surfaces.
pub struct SurfaceRegistry {
    surfaces: Vec<Surface>,
}

impl View for SurfaceRegistry {
    type V = Seq<SurfaceModel>;

    closed spec fn view(&self) -> Seq<SurfaceModel> {
        self.surfaces@.map_values(|s: Surface| s@)
    }
}

impl SurfaceRegistry {
    /// The record keeps what [`well_formed`] asks.
    pub open spec fn wf(&self) -> bool {
        well_formed(self@)
    }

    /// A record without surfaces.
    pub fn new() -> (registry: Self)
        ensures
            registry.wf(),
            registry@ == Seq::<SurfaceModel>::empty(),
    {
        let registry = SurfaceRegistry { surfaces: Vec::new() };
        assert(registry@ =~= Seq::<SurfaceModel>::empty());
        registry
    }

    /// The number of surfaces in the record, live or not.
    pub fn len(&self) -> (n: usize)
        ensures
            n == self@.len(),
    {
        self.surfaces.len()
    }

    /// The surface at place `i` of the record.
    pub fn get(&self, i: usize) -> (surface: &Surface)
        requires
            i < self@.len(),
        ensures
            surface@ == self@[i as int],
    {
        &self.surfaces[i]
    }

    fn position(&self, key: &String) -> (place: Option<usize>)
        requires
            self.wf(),
        ensures
            match place {
                Some(i) => registered(self@, key@) && i as int == index_of(self@, key@),
                None => !registered(self@, key@),
            },
    {
        let mut i: usize = 0;
        while i < self.surfaces.len()
            invariant
                i <= self.surfaces.len(),
                self.wf(),
                forall|j: int| 0 <= j < i ==> (#[trigger] self@[j]).label != key@,
            decreases self.surfaces.len() - i,
        {
            if self.surfaces[i].label == *key {
                proof {
                    assert(self@[i as int].label == key@);
                    lemma_index_of_is_place(self@, i as int);
                }
                return Some(i);
            }
            i += 1;
        }
        None
    }

    /// Tells whether a surface is entered under `label`, live or not.
    pub fn is_registered(&self, label: &str) -> (found: bool)
        requires
            self.wf(),
        ensures
            found == registered(self@, label@),
    {
        let key = label.to_owned();
        self.position(&key).is_some()
    }

    /// Looks up the live surface that `label` names.
    ///
    /// The answer holds for this moment only: a later operation may close the
    /// surface, so look it up again before each use.
    pub fn resolve(&self, label: &str) -> (found: Option<&Surface>)
        requires
            self.wf(),
        ensures
            match found {
                Some(surface) => resolved(self@, label@) == Some(surface@),
                None => resolved(self@, label@) is None,
            },
    {
        let key = label.to_owned();
        match self.position(&key) {
            Some(i) => {
                let surface = &self.surfaces[i];
                match surface.lifecycle_state {
                    LifecycleState::Active | LifecycleState::Hidden => Some(surface),
                    _ => None,
                }
            },
            None => None,
        }
    }

    /// Enters a surface of `kind` under `label`, not yet live, and tells whether
    /// it did. A label that is taken is left alone.
    pub fn reserve(&mut self, label: &str, kind: SurfaceKind) -> (entered: bool)
        requires
            old(self).wf(),
        ensures
            final(self).wf(),
            entered == !registered(old(self)@, label@),
            final(self)@ == after_reserve(old(self)@, label@, kind),
    {
        let key = label.to_owned();
        if self.position(&key).is_some() {
            return false;
        }
        let ghost before = self@;
        self.surfaces.push(
            Surface {
                label: key,
                kind,
                visibility: Visibility::Hidden,
                lifecycle_state: LifecycleState::Creating,
            },
        );
        proof {
            assert(self@ =~= after_reserve(before, label@, kind));
            assert forall|i: int, j: int|
                0 <= i < self@.len() && 0 <= j < self@.len() && i != j implies #[trigger] self@[i].label
                != #[trigger] self@[j].label by {
                if i < before.len() {
                    assert(self@[i] == before[i]);
                }
                if j < before.len() {
                    assert(self@[j] == before[j]);
                }
            }
            assert forall|i: int| 0 <= i < self@.len() implies is_consistent(
                #[trigger] self@[i],
            ) by {
                if i < before.len() {
                    assert(self@[i] == before[i]);
                }
            }
        }
        true
    }

    /// Records that the host layer made the surface `label`, and tells whether
    /// a creation of that label was under way. The surface is live and hidden
    /// from then on.
    pub fn commit(&mut self, label: &str) -> (done: bool)
        requires
            old(self).wf(),
        ensures
            final(self).wf(),
            done == is_pending(old(self)@, label@),
            final(self)@ == after_commit(old(self)@, label@),
    {
        let key = label.to_owned();
        match self.position(&key) {
            Some(i) => {
                match self.surfaces[i].lifecycle_state {
                    LifecycleState::Creating => {
                        let ghost before = self@;
                        self.surfaces[i].lifecycle_state = LifecycleState::Hidden;
                        proof {
                            assert(self@ =~= after_commit(before, label@));
                            lemma_update_keeps_labels(
                                before,
                                i as int,
                                Visibility::Hidden,
                                LifecycleState::Hidden,
                            );
                        }
                        true
                    },
                    _ => false,
                }
            },
            None => false,
        }
    }

    /// Records that the creation of `label` failed, and tells whether a
    /// creation of that label was under way. The entry leaves the record.
    pub fn abort(&mut self, label: &str) -> (done: bool)
        requires
            old(self).wf(),
        ensures
            final(self).wf(),
            done == is_pending(old(self)@, label@),
            final(self)@ == after_abort(old(self)@, label@),
            done ==> !registered(final(self)@, label@),
    {
        let key = label.to_owned();
        match self.position(&key) {
            Some(i) => {
                match self.surfaces[i].lifecycle_state {
                    LifecycleState::Creating => {
                        let ghost before = self@;
                        self.surfaces.remove(i);
                        proof {
                            assert(self@ =~= before.remove(i as int));
                            lemma_remove_keeps_well_formed(before, i as int);
                        }
                        true
                    },
                    _ => false,
                }
            },
            None => false,
        }
    }

    /// Shows or hides the live surface `label` and hands back the command for
    /// the host layer. A label that names no live surface changes nothing and
    /// yields no command.
    pub fn set_visibility(&mut self, label: &str, visibility: Visibility) -> (command: Option<
        HostCommand,
    >)
        requires
            old(self).wf(),
        ensures
            final(self).wf(),
            final(self)@ == after_set_visibility(old(self)@, label@, visibility),
            match command {
                Some(c) => resolved(old(self)@, label@) is Some && c@ == visibility_command(
                    label@,
                    visibility,
                ),
                None => resolved(old(self)@, label@) is None,
            },
    {
        let key = label.to_owned();
        match self.position(&key) {
            Some(i) => {
                match self.surfaces[i].lifecycle_state {
                    LifecycleState::Active | LifecycleState::Hidden => {
                        let ghost before = self@;
                        let state = match visibility {
                            Visibility::Visible => LifecycleState::Active,
                            Visibility::Hidden => LifecycleState::Hidden,
                        };
                        self.surfaces[i].visibility = visibility;
                        self.surfaces[i].lifecycle_state = state;
                        proof {
                            assert(self@ =~= after_set_visibility(before, label@, visibility));
                            lemma_update_keeps_labels(before, i as int, visibility, state);
                        }
                        match visibility {
                            Visibility::Visible => Some(HostCommand::Show { label: key }),
                            Visibility::Hidden => Some(HostCommand::Hide { label: key }),
                        }
                    },
                    _ => None,
                }
            },
            None => None,
        }
    }

    /// The command that moves the live surface `label` to `rect`, or none where
    /// the label names no live surface.
    pub fn reposition(&self, label: &str, rect: Rect) -> (command: Option<HostCommand>)
        requires
            self.wf(),
        ensures
            match command {
                Some(c) => resolved(self@, label@) is Some && c@ == (HostCommandModel::Reposition {
                    label: label@,
                    rect: rect@,
                }),
                None => resolved(self@, label@) is None,
            },
    {
        match self.resolve(label) {
            Some(_) => Some(HostCommand::Reposition { label: label.to_owned(), rect }),
            None => None,
        }
    }

    /// The command that raises the live surface `label` above the others, or
    /// none where the label names no live surface. Asking again asks the host
    /// layer for the same thing.
    pub fn enforce_foreground(&self, label: &str) -> (command: Option<HostCommand>)
        requires
            self.wf(),
        ensures
            match command {
                Some(c) => resolved(self@, label@) is Some && c@
                    == (HostCommandModel::EnforceForeground { label: label@ }),
                None => resolved(self@, label@) is None,
            },
    {
        match self.resolve(label) {
            Some(_) => Some(HostCommand::EnforceForeground { label: label.to_owned() }),
            None => None,
        }
    }

    /// Closes the live surface `label` and hands it back as it left: closed
    /// and hidden. Its entry leaves the record, so the label resolves no
    /// longer. A label that names no live surface changes nothing.
    pub fn close(&mut self, label: &str) -> (closed: Option<Surface>)
        requires
            old(self).wf(),
        ensures
            final(self).wf(),
            final(self)@ == after_close(old(self)@, label@),
            resolved(final(self)@, label@) is None,
            match closed {
                Some(surface) => resolved(old(self)@, label@) is Some && surface@ == (SurfaceModel {
                    visibility: Visibility::Hidden,
                    lifecycle_state: LifecycleState::Closed,
                    ..resolved(old(self)@, label@)->0
                }) && !registered(final(self)@, label@),
                None => resolved(old(self)@, label@) is None,
            },
    {
        let key = label.to_owned();
        match self.position(&key) {
            Some(i) => {
                match self.surfaces[i].lifecycle_state {
                    LifecycleState::Active | LifecycleState::Hidden => {
                        let ghost before = self@;
                        let mut surface = self.surfaces.remove(i);
                        surface.visibility = Visibility::Hidden;
                        surface.lifecycle_state = LifecycleState::Closed;
                        proof {
                            assert(self@ =~= before.remove(i as int));
                            lemma_remove_keeps_well_formed(before, i as int);
                        }
                        Some(surface)
                    },
                    _ => None,
                }
            },
            None => None,
        }
    }
}

/// Changing the visibility and the state of one surface keeps the labels, and
/// keeps the record well formed where the two go together.
pub proof fn lemma_update_keeps_labels(
    surfaces: Seq<SurfaceModel>,
    i: int,
    visibility: Visibility,
    state: LifecycleState,
)
    requires
        well_formed(surfaces),
        0 <= i < surfaces.len(),
        is_consistent(SurfaceModel { visibility, lifecycle_state: state, ..surfaces[i] }),
    ensures
        ({
            let changed = surfaces.update(
                i,
                SurfaceModel { visibility, lifecycle_state: state, ..surfaces[i] },
            );
            &&& well_formed(changed)
            &&& forall|label: Seq<char>| registered(changed, label) == registered(surfaces, label)
            &&& forall|label: Seq<char>|
                registered(surfaces, label) ==> index_of(changed, label) == index_of(
                    surfaces,
                    label,
                )
        }),
{
    let changed = surfaces.update(
        i,
        SurfaceModel { visibility, lifecycle_state: state, ..surfaces[i] },
    );
    assert forall|a: int, b: int|
        0 <= a < changed.len() && 0 <= b < changed.len() && a != b implies #[trigger] changed[a].label
        != #[trigger] changed[b].label by {
        assert(changed[a].label == surfaces[a].label);
        assert(changed[b].label == surfaces[b].label);
    }
    assert forall|label: Seq<char>| registered(changed, label) == registered(surfaces, label) by {
        if registered(surfaces, label) {
            let k = index_of(surfaces, label);
            assert(changed[k].label == label);
        }
        if registered(changed, label) {
            let k = index_of(changed, label);
            assert(surfaces[k].label == label);
        }
    }
    assert forall|label: Seq<char>| registered(surfaces, label) implies index_of(changed, label)
        == index_of(surfaces, label) by {
        let k = index_of(surfaces, label);
        let m = index_of(changed, label);
        assert(changed[k].label == label);
        assert(surfaces[m].label == changed[m].label);
    }
}

/// Taking one surface out keeps the record well formed, and its label is
/// entered no longer.
pub proof fn lemma_remove_keeps_well_formed(surfaces: Seq<SurfaceModel>, i: int)
    requires
        well_formed(surfaces),
        0 <= i < surfaces.len(),
    ensures
        well_formed(surfaces.remove(i)),
        !registered(surfaces.remove(i), surfaces[i].label),
        forall|label: Seq<char>|
            label != surfaces[i].label ==> registered(surfaces.remove(i), label) == registered(
                surfaces,
                label,
            ),
        forall|label: Seq<char>|
            label != surfaces[i].label && registered(surfaces, label) ==> surfaces.remove(
                i,
            )[index_of(surfaces.remove(i), label)] == surfaces[index_of(surfaces, label)],
{
    let rest = surfaces.remove(i);
    assert forall|a: int| 0 <= a < rest.len() implies #[trigger] rest[a] == surfaces[if a < i {
        a
    } else {
        a + 1
    }] by {}
    assert forall|a: int, b: int|
        0 <= a < rest.len() && 0 <= b < rest.len() && a != b implies #[trigger] rest[a].label
        != #[trigger] rest[b].label by {
        let a2 = if a < i {
            a
        } else {
            a + 1
        };
        let b2 = if b < i {
            b
        } else {
            b + 1
        };
        assert(rest[a] == surfaces[a2] && rest[b] == surfaces[b2]);
    }
    assert forall|a: int| 0 <= a < rest.len() implies is_consistent(#[trigger] rest[a]) by {
        let a2 = if a < i {
            a
        } else {
            a + 1
        };
        assert(rest[a] == surfaces[a2]);
    }
    if registered(rest, surfaces[i].label) {
        let k = index_of(rest, surfaces[i].label);
        let k2 = if k < i {
            k
        } else {
            k + 1
        };
        assert(rest[k] == surfaces[k2]);
        assert(surfaces[k2].label == surfaces[i].label);
    }
    assert forall|label: Seq<char>| label != surfaces[i].label implies registered(rest, label)
        == registered(surfaces, label) by {
        if registered(surfaces, label) {
            let k = index_of(surfaces, label);
            let k2 = if k < i {
                k
            } else {
                k - 1
            };
            assert(rest[k2] == surfaces[k]);
            assert(rest[k2].label == label);
        }
        if registered(rest, label) {
            let k = index_of(rest, label);
            let k2 = if k < i {
                k
            } else {
                k + 1
            };
            assert(rest[k] == surfaces[k2]);
            assert(surfaces[k2].label == label);
        }
    }
    assert forall|label: Seq<char>|
        label != surfaces[i].label && registered(surfaces, label) implies rest[index_of(
        rest,
        label,
    )] == surfaces[index_of(surfaces, label)] by {
        let k = index_of(surfaces, label);
        let k2 = if k < i {
            k
        } else {
            k - 1
        };
        assert(rest[k2] == surfaces[k]);
        assert(rest[k2].label == label);
        let m = index_of(rest, label);
        let m2 = if m < i {
            m
        } else {
            m + 1
        };
        assert(rest[m] == surfaces[m2]);
        assert(surfaces[m2].label == label);
    }
}

/// How often and how patiently a surface is looked up after its creation.
#[derive(Clone, Copy, Debug, PartialEq, Eq, Structural)]
pub struct RetryPolicy {
    /// The most lookups that are made.
    pub attempts: u32,
    /// The pause between two lookups, in milliseconds.
    pub interval_ms: u64,
}

impl Default for RetryPolicy {
    /// Ten lookups, a tenth of a second apart.
    fn default() -> (policy: Self)
        ensures
            policy == (RetryPolicy { attempts: 10, interval_ms: 100 }),
    {
        RetryPolicy { attempts: 10, interval_ms: 100 }
    }
}

/// What to do after one lookup.
#[derive(Clone, Copy, Debug, PartialEq, Eq, Structural)]
pub enum RetryStep {
    /// The surface is there.
    Found,
    /// The surface is not there yet: pause, then look again.
    Wait { millis: u64 },
    /// The surface is not there, and no lookup is left. This is no failure of
    /// the session: the surface is simply not visible yet.
    GiveUp,
}

/// The step that follows a lookup of `label` after `failed` lookups have
/// missed it.
pub open spec fn retry_step(
    surfaces: Seq<SurfaceModel>,
    label: Seq<char>,
    policy: RetryPolicy,
    failed: u32,
) -> RetryStep {
    if failed >= policy.attempts {
        RetryStep::GiveUp
    } else if resolved(surfaces, label) is Some {
        RetryStep::Found
    } else if failed + 1 >= policy.attempts {
        RetryStep::GiveUp
    } else {
        RetryStep::Wait { millis: policy.interval_ms }
    }
}

/// Looks the surface `label` up once and says how to go on.
///
/// `failed` is the number of lookups that have missed the surface so far. The
/// caller pauses as long as a [`RetryStep::Wait`] says, adds one to `failed`
/// and asks again.
pub fn resolve_with_retry(
    registry: &SurfaceRegistry,
    label: &str,
    policy: RetryPolicy,
    failed: u32,
) -> (step: RetryStep)
    requires
        registry.wf(),
    ensures
        step == retry_step(registry@, label@, policy, failed),
{
    if failed >= policy.attempts {
        RetryStep::GiveUp
    } else if registry.resolve(label).is_some() {
        RetryStep::Found
    } else if failed + 1 >= policy.attempts {
        RetryStep::GiveUp
    } else {
        RetryStep::Wait { millis: policy.interval_ms }
    }
}

/// A caller that counts its misses is told to wait fewer times than the
/// policy has attempts: once `failed + 1` reaches the attempts, no step asks
/// for another pause, whatever the record holds.
pub proof fn lemma_retry_is_bounded(
    surfaces: Seq<SurfaceModel>,
    label: Seq<char>,
    policy: RetryPolicy,
    failed: u32,
)
    requires
        failed + 1 >= policy.attempts,
    ensures
        !(retry_step(surfaces, label, policy, failed) is Wait),
{
}

} // verus!
