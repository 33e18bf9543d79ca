//! The live particles and their running count.

use crate::config::{Equation, SimulationConfig};
use crate::stepper::{advance_all, advanced};
use vstd::prelude::*;

verus! {

/// The number of live particles, as it is shown to the user.
#[derive(Clone, Copy, Debug, PartialEq, Eq, Structural)]
pub struct ParticleCount(pub i32);

/// What a store holds after a cluster of `n` particles was spawned around
/// `at`: what it held `before`, followed by `n` positions, each of which
/// `jitter` may return for `at`.
pub open spec fn clustered<P, J: Fn(&P) -> P>(
    before: Seq<P>,
    at: P,
    n: nat,
    jitter: J,
    after: Seq<P>,
) -> bool {
    &&& after.len() == before.len() + n
    &&& forall|i: int| 0 <= i < before.len() ==> #[trigger] after[i] == before[i]
    &&& forall|i: int|
        before.len() <= i < after.len() ==> jitter.ensures((&at,), #[trigger] after[i])
}

/// Whatever holds of every position that `jitter` may return for `at` holds
/// of every particle of a cluster spawned around `at`: a cluster lies within
/// the range of its jitter.
pub proof fn clustered_within<P, J: Fn(&P) -> P>(
    before: Seq<P>,
    at: P,
    n: nat,
    jitter: J,
    after: Seq<P>,
    range: spec_fn(P) -> bool,
)
    requires
        clustered(before, at, n, jitter, after),
        forall|position: P| #[trigger] jitter.ensures((&at,), position) ==> range(position),
    ensures
        forall|i: int| before.len() <= i < after.len() ==> range(#[trigger] after[i]),
{
}

/// The particles that are alive, in the order in which they were spawned,
/// each standing for its position, together with the count that is kept
/// beside them. The count equals the number of particles at all times.
pub struct ParticleStore<P> {
    particles: Vec<P>,
    count: ParticleCount,
}

impl<P> View for ParticleStore<P> {
    type V = Seq<P>;

    closed spec fn view(&self) -> Seq<P> {
        self.particles@
    }
}

impl<P> ParticleStore<P> {
    /// The value of the running count.
    pub closed spec fn tally(self) -> int {
        self.count.0 as int
    }

    /// The running count equals the number of live particles. This holds of
    /// every store at all times.
    #[verifier::type_invariant]
    pub open spec fn counted(self) -> bool {
        self.tally() == self@.len()
    }

    /// A store without particles.
    pub fn new() -> (store: Self)
        ensures
            store@ == Seq::<P>::empty(),
            store.tally() == 0,
            store.counted(),
    {
        ParticleStore { particles: Vec::new(), count: ParticleCount(0) }
    }

    /// The running count, which is the number of live particles.
    pub fn count(&self) -> (count: ParticleCount)
        ensures
            count.0 == self.tally(),
            count.0 == self@.len(),
    {
        proof {
            use_type_invariant(self);
        }
        self.count
    }

    /// The positions of the live particles, oldest first.
    pub fn particles(&self) -> (particles: &Vec<P>)
        ensures
            particles@ == self@,
    {
        &self.particles
    }

    /// Whether `more` further particles still fit under the largest count.
    pub fn has_room(&self, more: usize) -> (fits: bool)
        ensures
            fits == (self@.len() + more <= i32::MAX),
    {
        proof {
            use_type_invariant(self);
        }
        more <= i32::MAX as usize && self.count.0 <= i32::MAX - more as i32
    }

    /// Empties the store and hands out what it held.
    fn take(&mut self) -> (held: Vec<P>)
        ensures
            held@ == old(self)@,
            held@.len() == old(self).tally(),
            held@.len() <= i32::MAX,
            final(self)@ == Seq::<P>::empty(),
            final(self).tally() == 0,
    {
        let mut taken = ParticleStore::new();
        std::mem::swap(self, &mut taken);
        proof {
            use_type_invariant(&taken);
        }
        let ParticleStore { particles, count: _ } = taken;
        particles
    }

    /// Replaces what the store holds, and counts it.
    fn put(&mut self, particles: Vec<P>)
        requires
            particles@.len() <= i32::MAX,
        ensures
            final(self)@ == particles@,
            final(self).tally() == particles@.len(),
    {
        let count = ParticleCount(particles.len() as i32);
        *self = ParticleStore { particles, count };
    }

    /// Creates one particle at `position`.
    pub fn spawn_one(&mut self, position: P)
        requires
            old(self)@.len() + 1 <= i32::MAX,
        ensures
            final(self)@ == old(self)@.push(position),
            final(self).tally() == old(self).tally() + 1,
            final(self).counted(),
    {
        let mut particles = self.take();
        particles.push(position);
        self.put(particles);
    }

    /// Creates `n` particles around `at`, each where one call of `jitter`
    /// puts it.
    pub fn spawn_cluster<J: Fn(&P) -> P>(&mut self, at: &P, n: usize, jitter: &J)
        requires
            old(self)@.len() + n <= i32::MAX,
            jitter.requires((at,)),
        ensures
            clustered(old(self)@, *at, n as nat, *jitter, final(self)@),
            final(self).tally() == old(self).tally() + n,
            final(self).counted(),
    {
        let mut particles = self.take();
        let mut drawn: usize = 0;
        while drawn < n
            invariant
                drawn <= n,
                old(self)@.len() + n <= i32::MAX,
                jitter.requires((at,)),
                clustered(old(self)@, *at, drawn as nat, *jitter, particles@),
            decreases n - drawn,
        {
            let position = jitter(at);
            particles.push(position);
            drawn = drawn + 1;
        }
        self.put(particles);
    }

    /// Destroys every particle and resets the count.
    pub fn despawn_all(&mut self)
        ensures
            final(self)@ == Seq::<P>::empty(),
            final(self).tally() == 0,
            final(self).counted(),
    {
        let _ = self.take();
    }

    /// One simulation tick: every particle is advanced by `config.steps`
    /// applications of `step` for the active equation and the current
    /// exponent. No particle is created or destroyed, and with zero sub-steps
    /// nothing moves.
    pub fn tick<F: Fn(Equation, i32, &P) -> P>(&mut self, config: &SimulationConfig, step: &F)
        requires
            forall|p: P| step.requires((config.equation, config.exponent_tenths, &p)),
        ensures
            final(self)@.len() == old(self)@.len(),
            final(self).tally() == old(self).tally(),
            final(self).counted(),
            forall|i: int|
                0 <= i < old(self)@.len() ==> advanced(
                    *step,
                    config.equation,
                    config.exponent_tenths,
                    old(self)@[i],
                    config.steps as nat,
                    #[trigger] final(self)@[i],
                ),
            config.steps == 0 ==> final(self)@ == old(self)@,
    {
        let mut particles = self.take();
        advance_all(step, config.equation, config.exponent_tenths, &mut particles, config.steps);
        self.put(particles);
    }
}

} // verus!
