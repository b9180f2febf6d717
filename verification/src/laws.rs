//! What holds of every scene, stated over the mathematical values that the
//! functions of this library speak of.

use vstd::prelude::*;
use crate::entity::{Marks, System};
use crate::input::{KeyState, TriggerMode};
use crate::registry::{
    batch_slots, cleared, hit, lemma_cleared_is_final, lemma_subjects_complete,
    lemma_subjects_exact, live, subjects,
};
use crate::scene::{SceneView, Variant};

verus! {

/// In every variant gravity runs before the position update, the rotation
/// after both where there is one, and no rule runs twice in a frame.
pub proof fn law_gravity_precedes_velocity(variant: Variant)
    ensures
        variant.spec_integration()[0] == System::Gravity,
        variant.spec_integration()[1] == System::Velocity,
        variant.spec_integration().len() == if variant is Planar {
            2int
        } else {
            3int
        },
        !(variant is Planar) ==> variant.spec_integration()[2] == System::Rotation,
        variant.spec_integration().no_duplicates(),
{
}

/// Gravity and the position update visit the same entities: every live
/// entity with a velocity takes one gravity step per frame and then moves
/// by the velocity that holds it. No handle is listed twice, and none is
/// listed that is dead or has no velocity.
pub proof fn law_gravity_reaches_every_velocity(slots: Seq<Option<Marks>>)
    requires
        slots.len() <= usize::MAX,
    ensures
        subjects(slots, System::Gravity) == subjects(slots, System::Velocity),
        subjects(slots, System::Gravity).no_duplicates(),
        forall|h: usize|
            subjects(slots, System::Gravity).contains(h) <==> h < slots.len() && hit(
                #[trigger] slots[h as int],
                System::Velocity,
            ),
{
    lemma_same_hits_same_subjects(slots, System::Gravity, System::Velocity);
    lemma_subjects_exact(slots, System::Gravity);
    let listed = subjects(slots, System::Gravity);
    assert forall|h: usize| h < slots.len() && hit(
        #[trigger] slots[h as int],
        System::Velocity,
    ) implies listed.contains(h) by {
        assert(hit(slots[h as int], System::Gravity));
    }
}

/// Two rules that hit the same slots have the same subjects.
pub proof fn lemma_same_hits_same_subjects(slots: Seq<Option<Marks>>, a: System, b: System)
    requires
        forall|i: int| 0 <= i < slots.len() ==> hit(#[trigger] slots[i], a) == hit(slots[i], b),
    ensures
        subjects(slots, a) == subjects(slots, b),
    decreases slots.len(),
{
    if slots.len() > 0 {
        lemma_same_hits_same_subjects(slots.drop_last(), a, b);
        assert(hit(slots[slots.len() - 1], a) == hit(slots[slots.len() - 1], b));
    }
}

/// The scene after a run of frames, one key state per frame.
pub open spec fn after_frames(scene: SceneView, keys: Seq<KeyState>) -> SceneView
    decreases keys.len(),
{
    if keys.len() == 0 {
        scene
    } else {
        after_frames(scene, keys.drop_last()).after_trigger(keys.last())
    }
}

/// The number of gravity steps that the entity behind a handle takes over a
/// run of frames: one for each frame whose gravity step lists it.
pub open spec fn gravity_steps(scene: SceneView, keys: Seq<KeyState>, handle: usize) -> nat
    decreases keys.len(),
{
    if keys.len() == 0 {
        0
    } else {
        let before = after_frames(scene, keys.drop_last());
        let step: nat = if subjects(before.slots, System::Gravity).contains(handle) {
            1
        } else {
            0
        };
        gravity_steps(scene, keys.drop_last(), handle) + step
    }
}

/// Gravity accumulates linearly and without a bound: an entity with a
/// velocity takes exactly one gravity step in each frame, so `n` frames give
/// it `n` steps, and it stays in its slot unchanged. This holds of every
/// entity that the variant's trigger does not remove, and of every entity at
/// all while the trigger key is not read.
pub proof fn law_gravity_accumulates_linearly(
    scene: SceneView,
    keys: Seq<KeyState>,
    handle: usize,
)
    requires
        handle < scene.slots.len(),
        hit(scene.slots[handle as int], System::Gravity),
        !hit(scene.slots[handle as int], scene.removal()) || forall|i: int|
            0 <= i < keys.len() ==> !scene.variant.spec_trigger_mode().spec_reads(#[trigger] keys[i]),
    ensures
        gravity_steps(scene, keys, handle) == keys.len(),
        after_frames(scene, keys).variant == scene.variant,
        handle < after_frames(scene, keys).slots.len(),
        after_frames(scene, keys).slots[handle as int] == scene.slots[handle as int],
    decreases keys.len(),
{
    if keys.len() > 0 {
        let earlier = keys.drop_last();
        assert forall|i: int| 0 <= i < earlier.len() implies earlier[i] == keys[i] by {}
        law_gravity_accumulates_linearly(scene, earlier, handle);
        let before = after_frames(scene, earlier);
        lemma_subjects_complete(before.slots, System::Gravity, handle);
        assert(keys.last() == keys[keys.len() - 1]);
    }
}

/// A batch of equal entities is live in every slot.
pub proof fn lemma_batch_is_live(count: nat, marks: Marks)
    ensures
        live(batch_slots(count, marks)) == count,
    decreases count,
{
    if count > 0 {
        lemma_batch_is_live((count - 1) as nat, marks);
        assert(batch_slots(count, marks).drop_last() =~= batch_slots((count - 1) as nat, marks));
    }
}

/// The plane starts with exactly its batch size of cubes, all live and all
/// alike; a scene in space starts with the placeholder alone. Every scene
/// starts well-formed.
pub proof fn law_startup_population(variant: Variant)
    ensures
        SceneView::initial(variant).wf(),
        variant is Planar ==> {
            &&& SceneView::initial(variant).slots.len() == variant.spec_batch_size()
            &&& live(SceneView::initial(variant).slots) == variant.spec_batch_size()
            &&& forall|i: int|
                0 <= i < variant.spec_batch_size() ==> #[trigger] SceneView::initial(
                    variant,
                ).slots[i] == Some(Marks::spec_planar_debris())
        },
        !(variant is Planar) ==> {
            &&& SceneView::initial(variant).slots.len() == 1
            &&& SceneView::initial(variant).slots[0] == Some(Marks::spec_placeholder())
            &&& SceneView::initial(variant).phase is Intact
        },
{
    let start = SceneView::initial(variant);
    if variant is Planar {
        lemma_batch_is_live(variant.spec_batch_size(), Marks::spec_planar_debris());
    } else {
        assert(hit(start.slots[0], System::Explode));
    }
}

/// An explosion spawns exactly the variant's batch size of debris: the new
/// entities take the next unused slots, each is a debris cube, and every slot
/// that was there before keeps its place.
pub proof fn law_explosion_batch(scene: SceneView, key: KeyState)
    requires
        scene.variant.spec_trigger_mode() is Edge,
        scene.fires(key),
    ensures
        scene.spawned_by(key).len() == scene.variant.spec_batch_size(),
        scene.after_trigger(key).slots.len() == scene.slots.len()
            + scene.variant.spec_batch_size(),
        forall|i: int|
            0 <= i < scene.variant.spec_batch_size() ==> #[trigger] scene.after_trigger(
                key,
            ).slots[scene.slots.len() + i] == Some(Marks::spec_spatial_debris()),
        forall|i: int|
            0 <= i < scene.slots.len() ==> #[trigger] scene.after_trigger(key).slots[i] == cleared(
                scene.slots,
                System::Explode,
            )[i],
        scene.after_trigger(key).phase is Exploded,
{
}

/// A trigger in the exploded phase of a scene in space does nothing: the
/// scene stays as it is, nothing is removed and nothing is spawned.
pub proof fn law_explode_once(scene: SceneView, key: KeyState)
    requires
        scene.variant.spec_trigger_mode() is Edge,
        scene.phase is Exploded,
    ensures
        scene.after_trigger(key) == scene,
        scene.despawned_by(key) == Seq::<usize>::empty(),
        scene.spawned_by(key) == Seq::<usize>::empty(),
{
}

/// The exploded phase is final: no key state leads out of it.
pub proof fn law_exploded_is_terminal(scene: SceneView, key: KeyState)
    requires
        scene.phase is Exploded,
    ensures
        scene.after_trigger(key).phase is Exploded,
{
}

/// In the plane the despawn fires again in every frame with the key down,
/// and after the first it finds nothing: the second frame removes no entity,
/// spawns none and leaves the scene as the first left it.
pub proof fn law_despawn_refires_harmlessly(scene: SceneView, first: KeyState, second: KeyState)
    requires
        scene.variant.spec_trigger_mode() is Level,
        first.pressed,
    ensures
        scene.after_trigger(first).fires(second) == second.pressed,
        scene.after_trigger(first).despawned_by(second) == Seq::<usize>::empty(),
        scene.after_trigger(first).spawned_by(second) == Seq::<usize>::empty(),
        scene.after_trigger(first).after_trigger(second) == scene.after_trigger(first),
{
    lemma_cleared_is_final(scene.slots, System::Despawn);
}

/// The trigger handler keeps a scene well-formed: the phase goes on saying
/// whether a placeholder is live.
pub proof fn law_trigger_keeps_wf(scene: SceneView, key: KeyState)
    requires
        scene.wf(),
    ensures
        scene.after_trigger(key).wf(),
{
    let after = scene.after_trigger(key);
    if scene.fires(key) {
        assert forall|i: int| 0 <= i < after.slots.len() implies !hit(
            #[trigger] after.slots[i],
            System::Explode,
        ) by {
            if i < scene.slots.len() {
                match scene.variant.spec_trigger_mode() {
                    TriggerMode::Level => {
                        assert(!hit(scene.slots[i], System::Explode));
                    },
                    TriggerMode::Edge => {},
                }
            }
        }
    }
}

/// Once an explosion has happened, the placeholder is gone from the scene.
pub proof fn law_placeholder_leaves(scene: SceneView, key: KeyState)
    requires
        scene.wf(),
        scene.variant.spec_trigger_mode() is Edge,
        scene.fires(key),
    ensures
        !scene.after_trigger(key).has_placeholder(),
        subjects(scene.after_trigger(key).slots, System::Explode) == Seq::<usize>::empty(),
{
    law_trigger_keeps_wf(scene, key);
    let after = scene.after_trigger(key);
    lemma_no_hit_no_subject(after.slots, System::Explode);
}

/// A rule that hits no slot has no subjects.
pub proof fn lemma_no_hit_no_subject(slots: Seq<Option<Marks>>, sys: System)
    requires
        forall|i: int| 0 <= i < slots.len() ==> !hit(#[trigger] slots[i], sys),
    ensures
        subjects(slots, sys) == Seq::<usize>::empty(),
    decreases slots.len(),
{
    if slots.len() > 0 {
        lemma_no_hit_no_subject(slots.drop_last(), sys);
        assert(!hit(slots[slots.len() - 1], sys));
    }
}

} // verus!
