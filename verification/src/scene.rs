//! The scene: a registry of entities together with the trigger handler's
//! state, set up per variant and advanced one frame at a time.

use vstd::prelude::*;
use crate::entity::{Marks, System};
use crate::input::{KeyState, TriggerMode};
use crate::laws::law_trigger_keeps_wf;
use crate::registry::{batch_handles, batch_slots, cleared, hit, subjects, Registry};

verus! {

/// The variants of the scene.
#[derive(Clone, Copy, Debug, PartialEq, Eq, Structural)]
pub enum Variant {
    /// Flat scene: a population of cubes from the start, despawned while the
    /// key is held.
    Planar,
    /// Scene in space: one box that a key press blows into a full batch.
    Spatial,
    /// Scene in space with the small batch.
    SpatialSparse,
}

impl Variant {
    pub open spec fn spec_batch_size(self) -> nat {
        match self {
            Variant::Planar => 100,
            Variant::Spatial => 40,
            Variant::SpatialSparse => 25,
        }
    }

    /// The number of cubes that the variant spawns at once: its starting
    /// population in the plane, the debris of one explosion in space.
    pub fn batch_size(self) -> (n: usize)
        ensures
            n == self.spec_batch_size(),
    {
        match self {
            Variant::Planar => 100,
            Variant::Spatial => 40,
            Variant::SpatialSparse => 25,
        }
    }

    pub open spec fn spec_integration(self) -> Seq<System> {
        match self {
            Variant::Planar => seq![System::Gravity, System::Velocity],
            _ => seq![System::Gravity, System::Velocity, System::Rotation],
        }
    }

    /// The integration rules of one frame, in the order in which they run:
    /// gravity first, so that the position advances by the velocity that
    /// already holds this frame's gravity step.
    pub fn integration(self) -> (order: Vec<System>)
        ensures
            order@ == self.spec_integration(),
    {
        let mut order: Vec<System> = Vec::new();
        order.push(System::Gravity);
        order.push(System::Velocity);
        match self {
            Variant::Planar => {},
            _ => {
                order.push(System::Rotation);
            },
        }
        proof {
            assert(order@ =~= self.spec_integration());
        }
        order
    }

    pub open spec fn spec_trigger_key(self) -> char {
        match self {
            Variant::Planar => 'R',
            _ => 'E',
        }
    }

    /// The one key that the variant reads, by its letter.
    pub fn trigger_key(self) -> (key: char)
        ensures
            key == self.spec_trigger_key(),
    {
        match self {
            Variant::Planar => 'R',
            _ => 'E',
        }
    }

    pub open spec fn spec_trigger_mode(self) -> TriggerMode {
        match self {
            Variant::Planar => TriggerMode::Level,
            Variant::Spatial => TriggerMode::Edge,
            Variant::SpatialSparse => TriggerMode::Edge,
        }
    }

    /// How the variant reads its trigger key.
    pub fn trigger_mode(self) -> (mode: TriggerMode)
        ensures
            mode == self.spec_trigger_mode(),
    {
        match self {
            Variant::Planar => TriggerMode::Level,
            Variant::Spatial => TriggerMode::Edge,
            Variant::SpatialSparse => TriggerMode::Edge,
        }
    }
}

/// The trigger handler's state.
#[derive(Clone, Copy, Debug, PartialEq, Eq, Structural)]
pub enum Phase {
    /// The placeholder box stands.
    Intact,
    /// No placeholder stands: it was blown up, or the variant has none.
    /// Nothing leads back from here.
    Exploded,
}

/// The mathematical value of a scene.
pub struct SceneView {
    pub variant: Variant,
    pub phase: Phase,
    pub slots: Seq<Option<Marks>>,
}

impl SceneView {
    /// The scene at startup: the whole population in the plane, the lone
    /// placeholder in space.
    pub open spec fn initial(variant: Variant) -> SceneView {
        match variant {
            Variant::Planar => SceneView {
                variant,
                phase: Phase::Exploded,
                slots: batch_slots(variant.spec_batch_size(), Marks::spec_planar_debris()),
            },
            _ => SceneView {
                variant,
                phase: Phase::Intact,
                slots: seq![Some(Marks::spec_placeholder())],
            },
        }
    }

    /// Whether a placeholder is live.
    pub open spec fn has_placeholder(self) -> bool {
        exists|i: int| 0 <= i < self.slots.len() && hit(#[trigger] self.slots[i], System::Explode)
    }

    /// The phase says whether a placeholder is live, and the plane has none.
    pub open spec fn wf(self) -> bool {
        &&& self.phase is Intact <==> self.has_placeholder()
        &&& self.variant is Planar ==> self.phase is Exploded
    }

    /// Whether the trigger handler acts in a frame with this key state.
    pub open spec fn fires(self, key: KeyState) -> bool {
        let mode = self.variant.spec_trigger_mode();
        mode.spec_reads(key) && (mode is Edge ==> self.phase is Intact)
    }

    /// The rule by which the trigger handler removes entities.
    pub open spec fn removal(self) -> System {
        match self.variant.spec_trigger_mode() {
            TriggerMode::Level => System::Despawn,
            TriggerMode::Edge => System::Explode,
        }
    }

    /// The handles that the trigger handler removes in such a frame.
    pub open spec fn despawned_by(self, key: KeyState) -> Seq<usize> {
        if self.fires(key) {
            subjects(self.slots, self.removal())
        } else {
            Seq::empty()
        }
    }

    /// The handles of the debris that the trigger handler spawns in such a
    /// frame.
    pub open spec fn spawned_by(self, key: KeyState) -> Seq<usize> {
        if self.fires(key) && self.variant.spec_trigger_mode() is Edge {
            batch_handles(self.slots.len(), self.variant.spec_batch_size())
        } else {
            Seq::empty()
        }
    }

    /// The scene after the trigger handler has seen such a frame.
    pub open spec fn after_trigger(self, key: KeyState) -> SceneView {
        if !self.fires(key) {
            self
        } else {
            match self.variant.spec_trigger_mode() {
                TriggerMode::Level => SceneView {
                    variant: self.variant,
                    phase: self.phase,
                    slots: cleared(self.slots, System::Despawn),
                },
                TriggerMode::Edge => SceneView {
                    variant: self.variant,
                    phase: Phase::Exploded,
                    slots: cleared(self.slots, System::Explode) + batch_slots(
                        self.variant.spec_batch_size(),
                        Marks::spec_spatial_debris(),
                    ),
                },
            }
        }
    }
}

/// What the trigger handler did in one frame, for the host to carry out.
pub struct Outcome {
    /// The handles of the entities that left the scene, in rising order.
    pub despawned: Vec<usize>,
    /// The handles of the debris that entered the scene, in rising order.
    pub spawned: Vec<usize>,
}

/// One integration rule of a frame with the entities it has to visit.
pub struct Step {
    /// The rule to apply.
    pub system: System,
    /// The handles of the entities to apply it to, in rising order.
    pub subjects: Vec<usize>,
}

/// What one frame asks of the host: the integration steps, to be carried out
/// in the order of the list, and then the trigger handler's outcome.
pub struct Frame {
    /// The integration steps in running order.
    pub steps: Vec<Step>,
    /// The entities that the trigger handler removed and spawned.
    pub outcome: Outcome,
}

/// Whether `steps` are the variant's integration rules in order, each with
/// its subjects among `slots`.
pub open spec fn steps_follow(steps: Seq<Step>, variant: Variant, slots: Seq<Option<Marks>>) -> bool {
    &&& steps.len() == variant.spec_integration().len()
    &&& forall|i: int|
        0 <= i < steps.len() ==> {
            &&& (#[trigger] steps[i]).system == variant.spec_integration()[i]
            &&& steps[i].subjects@ == subjects(slots, variant.spec_integration()[i])
        }
}

/// A scene of one variant.
pub struct Scene {
    variant: Variant,
    phase: Phase,
    registry: Registry,
}

impl View for Scene {
    type V = SceneView;

    closed spec fn view(&self) -> SceneView {
        SceneView { variant: self.variant, phase: self.phase, slots: self.registry@ }
    }
}

impl Scene {
    /// Sets the scene up: the plane gets its whole population, space its
    /// lone placeholder.
    pub fn new(variant: Variant) -> (scene: Scene)
        ensures
            scene@ == SceneView::initial(variant),
            scene@.wf(),
    {
        let mut registry = Registry::new();
        match variant {
            Variant::Planar => {
                let _ = registry.spawn_batch(variant.batch_size(), Marks::planar_debris());
                let scene = Scene { variant, phase: Phase::Exploded, registry };
                proof {
                    assert(scene@.slots =~= SceneView::initial(variant).slots);
                }
                scene
            },
            _ => {
                let _ = registry.spawn(Marks::placeholder());
                let scene = Scene { variant, phase: Phase::Intact, registry };
                proof {
                    assert(scene@.slots =~= SceneView::initial(variant).slots);
                    assert(hit(scene@.slots[0], System::Explode));
                }
                scene
            },
        }
    }

    pub fn variant(&self) -> (v: Variant)
        ensures
            v == self@.variant,
    {
        self.variant
    }

    pub fn phase(&self) -> (p: Phase)
        ensures
            p == self@.phase,
    {
        self.phase
    }

    /// The entities of the scene.
    pub fn registry(&self) -> (r: &Registry)
        ensures
            r@ == self@.slots,
    {
        &self.registry
    }

    /// Lets the trigger handler see the key state of one frame. In the plane
    /// every frame with the key down removes all despawnable entities. In
    /// space the first key-press edge removes the placeholder and spawns one
    /// batch of debris; every later one changes nothing.
    pub fn trigger(&mut self, key: KeyState) -> (outcome: Outcome)
        ensures
            final(self)@ == old(self)@.after_trigger(key),
            outcome.despawned@ == old(self)@.despawned_by(key),
            outcome.spawned@ == old(self)@.spawned_by(key),
            old(self)@.wf() ==> final(self)@.wf(),
    {
        proof {
            if self@.wf() {
                law_trigger_keeps_wf(self@, key);
            }
        }
        let mode = self.variant.trigger_mode();
        if !mode.reads(key) {
            return Outcome { despawned: Vec::new(), spawned: Vec::new() };
        }
        match (mode, self.phase) {
            (TriggerMode::Level, _) => {
                let despawned = self.registry.despawn_all(System::Despawn);
                Outcome { despawned, spawned: Vec::new() }
            },
            (TriggerMode::Edge, Phase::Intact) => {
                let despawned = self.registry.despawn_all(System::Explode);
                let spawned = self.registry.spawn_batch(
                    self.variant.batch_size(),
                    Marks::spatial_debris(),
                );
                self.phase = Phase::Exploded;
                Outcome { despawned, spawned }
            },
            (TriggerMode::Edge, Phase::Exploded) => {
                Outcome { despawned: Vec::new(), spawned: Vec::new() }
            },
        }
    }

    /// Runs one frame: lists the integration steps with the entities that
    /// each has to visit, as the scene stands when the frame begins, then
    /// lets the trigger handler act.
    pub fn frame(&mut self, key: KeyState) -> (frame: Frame)
        ensures
            steps_follow(frame.steps@, old(self)@.variant, old(self)@.slots),
            frame.outcome.despawned@ == old(self)@.despawned_by(key),
            frame.outcome.spawned@ == old(self)@.spawned_by(key),
            final(self)@ == old(self)@.after_trigger(key),
            old(self)@.wf() ==> final(self)@.wf(),
    {
        let order = self.variant.integration();
        let mut steps: Vec<Step> = Vec::new();
        let mut i: usize = 0;
        while i < order.len()
            invariant
                i <= order.len(),
                order@ == self@.variant.spec_integration(),
                steps@.len() == i,
                forall|j: int|
                    0 <= j < i ==> {
                        &&& (#[trigger] steps@[j]).system == order@[j]
                        &&& steps@[j].subjects@ == subjects(self@.slots, order@[j])
                    },
            decreases order.len() - i,
        {
            let system = order[i];
            let subjects = self.registry.select(system);
            steps.push(Step { system, subjects });
            i += 1;
        }
        let outcome = self.trigger(key);
        Frame { steps, outcome }
    }
}

} // verus!
