//! Spawning particles at the point under the cursor: one particle, or a
//! cluster scattered around the point while the cluster key is held.

use crate::keyboard::{held_keys, is_held};
use crate::store::{clustered, ParticleStore};
use bevy::input::keyboard::KeyCode;
use bevy::input::ButtonInput;
use vstd::prelude::*;

verus! {

/// The number of particles in a cluster.
pub const CLUSTER_SIZE: usize = 20;

/// How many particles one spawn request creates.
pub open spec fn spawn_size<P>(bunch: bool, spawn_at: Option<P>) -> nat {
    if spawn_at is None {
        0
    } else if bunch {
        CLUSTER_SIZE as nat
    } else {
        1
    }
}

/// What the store holds after a spawn request, given what it held before.
/// Without a spawn point nothing changes. A single particle stands at the
/// spawn point itself; each particle of a cluster stands where `jitter` put
/// it for the spawn point.
pub open spec fn spawned<P, J: Fn(&P) -> P>(
    before: Seq<P>,
    bunch: bool,
    spawn_at: Option<P>,
    jitter: J,
    after: Seq<P>,
) -> bool {
    match spawn_at {
        None => after == before,
        Some(at) => if bunch {
            clustered(before, at, CLUSTER_SIZE as nat, jitter, after)
        } else {
            after == before.push(at)
        },
    }
}

/// Carries out one spawn request: nothing without a spawn point, a cluster
/// of `CLUSTER_SIZE` jittered particles where `bunch` is set, else one
/// particle at the spawn point. Returns the number of particles created.
pub fn spawn<P, J: Fn(&P) -> P>(
    store: &mut ParticleStore<P>,
    bunch: bool,
    spawn_at: Option<P>,
    jitter: &J,
) -> (created: usize)
    requires
        old(store)@.len() + spawn_size(bunch, spawn_at) <= i32::MAX,
        spawn_at matches Some(at) ==> jitter.requires((&at,)),
    ensures
        created == spawn_size(bunch, spawn_at),
        spawned(old(store)@, bunch, spawn_at, *jitter, final(store)@),
        final(store)@.len() == old(store)@.len() + created,
        final(store).tally() == old(store).tally() + created,
        final(store).counted(),
{
    proof {
        use_type_invariant(&*store);
    }
    match spawn_at {
        None => 0,
        Some(at) => {
            if bunch {
                store.spawn_cluster(&at, CLUSTER_SIZE, jitter);
                CLUSTER_SIZE
            } else {
                store.spawn_one(at);
                1
            }
        },
    }
}

/// One spawn request while the mouse button is down: a cluster where
/// `cluster_key` is held, else a single particle. Returns the number of
/// particles created, or `None`, with the store as it was, where the count
/// could not hold them.
pub fn mouse_click_system<P, J: Fn(&P) -> P>(
    store: &mut ParticleStore<P>,
    keys: &ButtonInput<KeyCode>,
    cluster_key: KeyCode,
    spawn_at: Option<P>,
    jitter: &J,
) -> (created: Option<usize>)
    requires
        spawn_at matches Some(at) ==> jitter.requires((&at,)),
    ensures
        ({
            let bunch = held_keys(*keys).contains(cluster_key);
            let size = spawn_size(bunch, spawn_at);
            if old(store)@.len() + size <= i32::MAX {
                &&& created == Some(size as usize)
                &&& spawned(old(store)@, bunch, spawn_at, *jitter, final(store)@)
                &&& final(store).tally() == old(store).tally() + size
            } else {
                &&& created is None
                &&& final(store)@ == old(store)@
                &&& final(store).tally() == old(store).tally()
            }
        }),
        final(store).counted(),
{
    proof {
        use_type_invariant(&*store);
    }
    let bunch = is_held(keys, cluster_key);
    let size: usize = if spawn_at.is_none() {
        0
    } else if bunch {
        CLUSTER_SIZE
    } else {
        1
    };
    if store.has_room(size) {
        Some(spawn(store, bunch, spawn_at, jitter))
    } else {
        None
    }
}

} // verus!
