use bevy::input::keyboard::KeyCode;
use bevy::input::ButtonInput;
use chaos_particles::spawn::{mouse_click_system, spawn, CLUSTER_SIZE};
use chaos_particles::store::{ParticleCount, ParticleStore};
use rand::Rng;

type Position = [f64; 3];

fn jitter(at: &Position) -> Position {
    let mut rng = rand::thread_rng();
    [
        at[0] + rng.gen::<f64>().fract(),
        at[1] + rng.gen::<f64>().fract(),
        at[2] + rng.gen::<f64>().fract(),
    ]
}

fn within_jitter(at: &Position, position: &Position) -> bool {
    (0..3).all(|axis| at[axis] <= position[axis] && position[axis] <= at[axis] + 1.0)
}

fn keyboard(pressed: &[KeyCode]) -> ButtonInput<KeyCode> {
    let mut keys = ButtonInput::default();
    for key in pressed {
        keys.press(*key);
    }
    keys
}

#[test]
fn a_cluster_has_twenty_particles() {
    assert_eq!(CLUSTER_SIZE, 20);
}

#[test]
fn spawn_cluster_draws_each_position_around_the_spawn_point() {
    let mut store = ParticleStore::new();
    let at = [3.0, -4.0, 0.5];
    store.spawn_cluster(&at, 20, &jitter);
    assert_eq!(store.count(), ParticleCount(20));
    assert_eq!(store.particles().len(), 20);
    assert!(store.particles().iter().all(|position| within_jitter(&at, position)));
    let first = store.particles()[0];
    assert!(store.particles().iter().any(|position| *position != first));
}

#[test]
fn a_single_spawn_puts_one_particle_at_the_spawn_point() {
    let mut store = ParticleStore::new();
    let created = spawn(&mut store, false, Some([1.0, 2.0, 3.0]), &jitter);
    assert_eq!(created, 1);
    assert_eq!(store.count(), ParticleCount(1));
    assert_eq!(store.particles(), &vec![[1.0, 2.0, 3.0]]);
}

#[test]
fn a_cluster_spawn_adds_twenty_particles_within_the_jitter_range() {
    let mut store = ParticleStore::new();
    store.spawn_one([100.0, 100.0, 100.0]);
    let at = [0.2, -7.0, 41.0];
    let created = spawn(&mut store, true, Some(at), &jitter);
    assert_eq!(created, 20);
    assert_eq!(store.count(), ParticleCount(21));
    assert_eq!(store.particles().len(), 21);
    assert_eq!(store.particles()[0], [100.0, 100.0, 100.0]);
    assert!(store.particles()[1..].iter().all(|position| within_jitter(&at, position)));
}

#[test]
fn without_a_spawn_point_nothing_is_spawned() {
    let mut store = ParticleStore::new();
    store.spawn_one([1.0, 1.0, 1.0]);
    assert_eq!(spawn(&mut store, false, None, &jitter), 0);
    assert_eq!(spawn(&mut store, true, None, &jitter), 0);
    let shift = keyboard(&[KeyCode::ShiftLeft]);
    assert_eq!(mouse_click_system(&mut store, &shift, KeyCode::ShiftLeft, None, &jitter), Some(0));
    assert_eq!(store.count(), ParticleCount(1));
    assert_eq!(store.particles(), &vec![[1.0, 1.0, 1.0]]);
}

#[test]
fn a_click_without_the_cluster_key_spawns_one_particle() {
    let mut store = ParticleStore::new();
    let keys = keyboard(&[KeyCode::ControlLeft]);
    let created =
        mouse_click_system(&mut store, &keys, KeyCode::ShiftLeft, Some([0.5, 0.5, 0.5]), &jitter);
    assert_eq!(created, Some(1));
    assert_eq!(store.particles(), &vec![[0.5, 0.5, 0.5]]);
    assert_eq!(store.count(), ParticleCount(1));
}

#[test]
fn a_click_with_the_cluster_key_held_spawns_a_cluster() {
    let mut store = ParticleStore::new();
    let mut keys = keyboard(&[KeyCode::ShiftLeft]);
    keys.clear();
    let at = [-1.0, 0.0, 2.0];
    let created = mouse_click_system(&mut store, &keys, KeyCode::ShiftLeft, Some(at), &jitter);
    assert_eq!(created, Some(20));
    assert_eq!(store.count(), ParticleCount(20));
    assert!(store.particles().iter().all(|position| within_jitter(&at, position)));
    keys.release(KeyCode::ShiftLeft);
    let created = mouse_click_system(&mut store, &keys, KeyCode::ShiftLeft, Some(at), &jitter);
    assert_eq!(created, Some(1));
    assert_eq!(store.count(), ParticleCount(21));
    assert_eq!(store.particles()[20], at);
}

#[test]
fn a_click_that_the_count_cannot_hold_spawns_nothing() {
    let unit = |_: &()| ();
    let mut store = ParticleStore::new();
    store.spawn_cluster(&(), i32::MAX as usize - 1, &unit);
    assert_eq!(store.count(), ParticleCount(i32::MAX - 1));
    let shift = keyboard(&[KeyCode::ShiftLeft]);
    assert_eq!(mouse_click_system(&mut store, &shift, KeyCode::ShiftLeft, Some(()), &unit), None);
    assert_eq!(store.count(), ParticleCount(i32::MAX - 1));
    assert_eq!(mouse_click_system(&mut store, &shift, KeyCode::ShiftLeft, None, &unit), Some(0));
    let idle = keyboard(&[]);
    assert_eq!(mouse_click_system(&mut store, &idle, KeyCode::ShiftLeft, Some(()), &unit), Some(1));
    assert_eq!(store.count(), ParticleCount(i32::MAX));
    assert_eq!(store.particles().len(), i32::MAX as usize);
    assert_eq!(mouse_click_system(&mut store, &idle, KeyCode::ShiftLeft, Some(()), &unit), None);
    assert_eq!(store.count(), ParticleCount(i32::MAX));
    assert!(!store.has_room(1));
    store.despawn_all();
    assert_eq!(store.count(), ParticleCount(0));
}
