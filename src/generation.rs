//! The hand-over from one generation to the next.
use crate::pool::{
    mutated_to_spawn, reached_indices, repeat_survivors, survivor_flags, unmutated_to_spawn, Pool,
};
use crate::sim::SimState;
use vstd::prelude::*;

verus! {

/// Replaces a completed generation: judges it (`in_target[i]` says whether
/// agent `i` ended inside a target region), records its number of repeat
/// survivors, builds the next generation and marks it started. While the
/// generation is still running nothing changes and `false` is returned.
pub fn next_generation<G: Clone, F: Fn(&G) -> G>(
    sim: &mut SimState,
    pool: &mut Pool<G>,
    in_target: &Vec<bool>,
    mutate: F,
) -> (r: bool)
    requires
        old(pool).wf(),
        in_target@.len() == old(pool).agents().len(),
        forall|g: G| #[trigger] mutate.requires((&g,)),
    ensures
        r == old(sim).complete(),
        final(pool).wf(),
        final(pool).size() == old(pool).size(),
        final(pool).threshold() == old(pool).threshold(),
        !r ==> *final(sim) == *old(sim) && *final(pool) == *old(pool),
        r ==> {
            let survivors = repeat_survivors(old(pool).agents(), in_target@);
            let reached = reached_indices(in_target@).len();
            &&& final(sim).record() == old(sim).record().push(survivors as u32)
            &&& !final(sim).complete()
            &&& final(sim).generation() == old(sim).generation()
            &&& final(sim).paused() == old(sim).paused()
            &&& final(sim).scheduler() == old(sim).scheduler()
            &&& reached == 0 ==> *final(pool) == *old(pool)
            &&& reached > 0 ==> survivor_flags(final(pool).agents()).to_multiset().count(true)
                == unmutated_to_spawn(reached, survivors, old(pool).size() as nat, old(pool).threshold())
            &&& reached > 0 ==> survivor_flags(final(pool).agents()).to_multiset().count(false)
                == mutated_to_spawn(reached, survivors, old(pool).size() as nat, old(pool).threshold())
        },
{
    if !sim.gen_is_complete() {
        return false;
    }
    let info = pool.judge_ai(in_target);
    sim.save_successful(info.non_mutated_survivors);
    pool.update_pool(info, mutate);
    sim.created_next_gen();
    true
}

} // verus!
