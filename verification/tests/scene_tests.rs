use debris_sim::entity::{Marks, System};
use debris_sim::input::{KeyState, KeyTracker, TriggerMode};
use debris_sim::scene::{Phase, Scene, Variant};

const UP: KeyState = KeyState { pressed: false, just_pressed: false };
const EDGE: KeyState = KeyState { pressed: true, just_pressed: true };
const HELD: KeyState = KeyState { pressed: true, just_pressed: false };

#[test]
fn batch_sizes_per_variant() {
    assert_eq!(Variant::Planar.batch_size(), 100);
    assert_eq!(Variant::Spatial.batch_size(), 40);
    assert_eq!(Variant::SpatialSparse.batch_size(), 25);
}

#[test]
fn trigger_modes_per_variant() {
    assert_eq!(Variant::Planar.trigger_mode(), TriggerMode::Level);
    assert_eq!(Variant::Spatial.trigger_mode(), TriggerMode::Edge);
    assert_eq!(Variant::SpatialSparse.trigger_mode(), TriggerMode::Edge);
}

#[test]
fn planar_scene_starts_with_its_population() {
    let s = Scene::new(Variant::Planar);
    assert_eq!(s.variant(), Variant::Planar);
    assert_eq!(s.phase(), Phase::Exploded);
    assert_eq!(s.registry().capacity_used(), 100);
    assert_eq!(s.registry().live_count(), 100);
    for h in 0..100 {
        assert_eq!(s.registry().marks(h), Some(Marks::planar_debris()));
    }
    assert_eq!(s.registry().marks(100), None);
}

#[test]
fn spatial_scene_starts_with_the_placeholder() {
    for v in [Variant::Spatial, Variant::SpatialSparse] {
        let s = Scene::new(v);
        assert_eq!(s.variant(), v);
        assert_eq!(s.phase(), Phase::Intact);
        assert_eq!(s.registry().capacity_used(), 1);
        assert_eq!(s.registry().marks(0), Some(Marks::placeholder()));
        assert_eq!(s.registry().select(System::Explode), vec![0]);
    }
}

#[test]
fn explosion_replaces_placeholder_by_forty() {
    let mut s = Scene::new(Variant::Spatial);
    let out = s.trigger(EDGE);
    assert_eq!(out.despawned, vec![0]);
    assert_eq!(out.spawned, (1..=40).collect::<Vec<usize>>());
    assert_eq!(s.phase(), Phase::Exploded);
    assert_eq!(s.registry().marks(0), None);
    assert_eq!(s.registry().live_count(), 40);
    assert_eq!(s.registry().capacity_used(), 41);
    for h in 1..=40 {
        assert_eq!(s.registry().marks(h), Some(Marks::spatial_debris()));
    }
}

#[test]
fn sparse_explosion_spawns_twenty_five() {
    let mut s = Scene::new(Variant::SpatialSparse);
    let out = s.trigger(EDGE);
    assert_eq!(out.despawned, vec![0]);
    assert_eq!(out.spawned, (1..=25).collect::<Vec<usize>>());
    assert_eq!(s.registry().live_count(), 25);
    assert_eq!(s.phase(), Phase::Exploded);
}

#[test]
fn explode_when_exploded_has_no_effect() {
    let mut s = Scene::new(Variant::Spatial);
    s.trigger(EDGE);
    for key in [EDGE, HELD, UP, EDGE] {
        let out = s.trigger(key);
        assert_eq!(out.despawned, Vec::<usize>::new());
        assert_eq!(out.spawned, Vec::<usize>::new());
        assert_eq!(s.phase(), Phase::Exploded);
        assert_eq!(s.registry().capacity_used(), 41);
        assert_eq!(s.registry().live_count(), 40);
        assert_eq!(s.registry().marks(0), None);
    }
}

#[test]
fn held_key_without_edge_does_not_explode() {
    let mut s = Scene::new(Variant::Spatial);
    for key in [UP, HELD, UP] {
        let out = s.trigger(key);
        assert_eq!(out.despawned, Vec::<usize>::new());
        assert_eq!(out.spawned, Vec::<usize>::new());
        assert_eq!(s.phase(), Phase::Intact);
        assert_eq!(s.registry().capacity_used(), 1);
        assert_eq!(s.registry().marks(0), Some(Marks::placeholder()));
    }
}

#[test]
fn planar_despawn_fires_while_key_is_held() {
    let mut s = Scene::new(Variant::Planar);
    let out = s.trigger(HELD);
    assert_eq!(out.despawned, (0..100).collect::<Vec<usize>>());
    assert_eq!(out.spawned, Vec::<usize>::new());
    assert_eq!(s.registry().live_count(), 0);
    assert_eq!(s.registry().capacity_used(), 100);
    for key in [HELD, EDGE, HELD] {
        let again = s.trigger(key);
        assert_eq!(again.despawned, Vec::<usize>::new());
        assert_eq!(again.spawned, Vec::<usize>::new());
        assert_eq!(s.registry().live_count(), 0);
        assert_eq!(s.registry().capacity_used(), 100);
    }
}

#[test]
fn planar_scene_stays_while_key_is_up() {
    let mut s = Scene::new(Variant::Planar);
    let out = s.trigger(UP);
    assert_eq!(out.despawned, Vec::<usize>::new());
    assert_eq!(out.spawned, Vec::<usize>::new());
    assert_eq!(s.registry().live_count(), 100);
}

#[test]
fn integration_runs_gravity_first() {
    assert_eq!(Variant::Planar.integration(), vec![System::Gravity, System::Velocity]);
    assert_eq!(
        Variant::Spatial.integration(),
        vec![System::Gravity, System::Velocity, System::Rotation]
    );
    assert_eq!(
        Variant::SpatialSparse.integration(),
        vec![System::Gravity, System::Velocity, System::Rotation]
    );
}

#[test]
fn trigger_keys_per_variant() {
    assert_eq!(Variant::Planar.trigger_key(), 'R');
    assert_eq!(Variant::Spatial.trigger_key(), 'E');
    assert_eq!(Variant::SpatialSparse.trigger_key(), 'E');
}

#[test]
fn planar_frame_visits_every_cube() {
    let mut s = Scene::new(Variant::Planar);
    let all: Vec<usize> = (0..100).collect();
    let f = s.frame(UP);
    assert_eq!(f.steps.len(), 2);
    assert_eq!(f.steps[0].system, System::Gravity);
    assert_eq!(f.steps[0].subjects, all);
    assert_eq!(f.steps[1].system, System::Velocity);
    assert_eq!(f.steps[1].subjects, all);
    assert_eq!(f.outcome.despawned, Vec::<usize>::new());
    assert_eq!(f.outcome.spawned, Vec::<usize>::new());
}

#[test]
fn frame_lists_the_scene_as_it_stood_before_the_trigger() {
    let mut s = Scene::new(Variant::Planar);
    let all: Vec<usize> = (0..100).collect();
    let f = s.frame(HELD);
    assert_eq!(f.steps[0].subjects, all);
    assert_eq!(f.steps[1].subjects, all);
    assert_eq!(f.outcome.despawned, all);
    let g = s.frame(HELD);
    assert_eq!(g.steps.len(), 2);
    assert_eq!(g.steps[0].subjects, Vec::<usize>::new());
    assert_eq!(g.steps[1].subjects, Vec::<usize>::new());
    assert_eq!(g.outcome.despawned, Vec::<usize>::new());
}

#[test]
fn spatial_frames_around_the_explosion() {
    let mut s = Scene::new(Variant::Spatial);
    let debris: Vec<usize> = (1..=40).collect();
    let order = [System::Gravity, System::Velocity, System::Rotation];

    let before = s.frame(UP);
    assert_eq!(before.steps.len(), 3);
    for (step, system) in before.steps.iter().zip(order) {
        assert_eq!(step.system, system);
        assert_eq!(step.subjects, Vec::<usize>::new());
    }

    let bang = s.frame(EDGE);
    for (step, system) in bang.steps.iter().zip(order) {
        assert_eq!(step.system, system);
        assert_eq!(step.subjects, Vec::<usize>::new());
    }
    assert_eq!(bang.outcome.despawned, vec![0]);
    assert_eq!(bang.outcome.spawned, debris);

    let after = s.frame(HELD);
    assert_eq!(after.steps.len(), 3);
    for (step, system) in after.steps.iter().zip(order) {
        assert_eq!(step.system, system);
        assert_eq!(step.subjects, debris);
    }
    assert_eq!(after.outcome.despawned, Vec::<usize>::new());
    assert_eq!(after.outcome.spawned, Vec::<usize>::new());
}

#[test]
fn every_moving_entity_takes_one_gravity_step_per_frame() {
    let mut s = Scene::new(Variant::Spatial);
    s.frame(EDGE);
    let mut steps = vec![0u32; s.registry().capacity_used()];
    let frames = 60;
    for _ in 0..frames {
        let f = s.frame(UP);
        for step in f.steps {
            if step.system == System::Gravity {
                for h in step.subjects {
                    steps[h] += 1;
                }
            }
        }
    }
    assert_eq!(steps[0], 0);
    for h in 1..=40 {
        assert_eq!(steps[h], frames);
    }
}

#[test]
fn gravity_accumulates_linearly_over_the_listed_steps() {
    let g: f32 = -15.0;
    let dt: f32 = 0.25;
    let mut s = Scene::new(Variant::SpatialSparse);
    s.frame(EDGE);
    let mut vy = vec![0.0f32; s.registry().capacity_used()];
    for _ in 0..8 {
        let f = s.frame(UP);
        for step in f.steps {
            if step.system == System::Gravity {
                for h in step.subjects {
                    vy[h] += g * dt;
                }
            }
        }
    }
    assert_eq!(vy[0], 0.0);
    for h in 1..=25 {
        assert_eq!(vy[h], -30.0);
    }
}

#[test]
fn planar_cubes_take_gravity_steps_until_despawned() {
    let mut s = Scene::new(Variant::Planar);
    let mut steps = vec![0u32; s.registry().capacity_used()];
    for key in [UP, UP, UP, HELD, HELD, UP] {
        let f = s.frame(key);
        for step in f.steps {
            if step.system == System::Gravity {
                for h in step.subjects {
                    steps[h] += 1;
                }
            }
        }
    }
    for h in 0..100 {
        assert_eq!(steps[h], 4);
    }
}

#[test]
fn tracker_drives_a_single_explosion_while_key_stays_down() {
    let mut s = Scene::new(Variant::Spatial);
    let mut t = KeyTracker::new();
    let mut spawned = 0;
    for down in [false, true, true, true, false, true, true] {
        let out = s.trigger(t.observe(down));
        spawned += out.spawned.len();
    }
    assert_eq!(spawned, 40);
    assert_eq!(s.registry().live_count(), 40);
}
