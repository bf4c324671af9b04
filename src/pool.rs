//! The population manager: judges which agents reached a target and builds
//! the next generation from them.
use crate::growth::{growth, growth_spec, lemma_growth_saturates};
use crate::random::{random_index, shuffle};
use vstd::prelude::*;

verus! {

broadcast use vstd::seq_lib::group_to_multiset_ensures;

/// A threshold written as the fraction `numerator / denominator`. A zero
/// denominator stands for a threshold that no ratio exceeds.
#[derive(Clone, Copy, Debug, PartialEq, Eq, Structural)]
pub struct Fraction {
    pub numerator: u32,
    pub denominator: u32,
}

/// `part / whole > t`, compared without division.
pub open spec fn exceeds(part: nat, whole: nat, t: Fraction) -> bool {
    part * t.denominator > t.numerator * whole
}

/// Mutation stops once the share of agents that survived two generations in a
/// row unmutated is above the threshold: the population has converged.
pub open spec fn mutation_frozen(non_mutated: nat, population: nat, t: Fraction) -> bool {
    exceeds(non_mutated, population, t)
}

/// How many unmutated copies of successful controllers the next generation gets.
pub open spec fn unmutated_to_spawn(
    reached: nat,
    non_mutated: nat,
    population: nat,
    t: Fraction,
) -> nat {
    if mutation_frozen(non_mutated, population, t) {
        population
    } else {
        growth_spec(reached, population)
    }
}

/// How many mutated copies of successful controllers the next generation gets.
pub open spec fn mutated_to_spawn(reached: nat, non_mutated: nat, population: nat, t: Fraction) -> nat {
    if mutation_frozen(non_mutated, population, t) {
        0
    } else {
        (population - growth_spec(reached, population)) as nat
    }
}

/// The make-up of the next generation.
#[derive(Clone, Copy, Debug, PartialEq, Eq, Structural)]
pub struct SpawnCounts {
    pub unmutated: u32,
    pub mutated: u32,
}

proof fn lemma_product_of_u32_fits(a: u32, b: u32)
    ensures
        a * b <= u64::MAX,
{
    assert(a * b <= 0xffff_ffff * 0xffff_ffff) by (nonlinear_arith)
        requires
            a <= 0xffff_ffff,
            b <= 0xffff_ffff,
    ;
}

/// Splits a population of `population` agents into unmutated and mutated
/// copies, given `reached` successful agents of which `non_mutated` had
/// already succeeded unmutated the generation before.
pub fn spawn_counts(reached: u32, non_mutated: u32, population: u32, stop_mutate_threshold: Fraction) -> (r: SpawnCounts)
    ensures
        r.unmutated == unmutated_to_spawn(reached as nat, non_mutated as nat, population as nat, stop_mutate_threshold),
        r.mutated == mutated_to_spawn(reached as nat, non_mutated as nat, population as nat, stop_mutate_threshold),
        r.unmutated + r.mutated == population,
        mutation_frozen(non_mutated as nat, population as nat, stop_mutate_threshold) ==> r.mutated == 0,
{
    proof {
        lemma_product_of_u32_fits(non_mutated, stop_mutate_threshold.denominator);
        lemma_product_of_u32_fits(stop_mutate_threshold.numerator, population);
    }
    let frozen = (non_mutated as u64) * (stop_mutate_threshold.denominator as u64)
        > (stop_mutate_threshold.numerator as u64) * (population as u64);
    if frozen {
        SpawnCounts { unmutated: population, mutated: 0 }
    } else {
        let unmutated = growth(reached, population);
        SpawnCounts { unmutated, mutated: population - unmutated }
    }
}

/// The order in which the next generation is filled: `true` for an unmutated
/// copy, `false` for a mutated one, shuffled so that the order says nothing of
/// the selection.
fn spawn_order(counts: SpawnCounts) -> (r: Vec<bool>)
    ensures
        r@.len() == counts.unmutated + counts.mutated,
        r@.to_multiset().count(true) == counts.unmutated,
        r@.to_multiset().count(false) == counts.mutated,
{
    let mut order: Vec<bool> = Vec::new();
    let mut i: u32 = 0;
    while i < counts.unmutated
        invariant
            i <= counts.unmutated,
            order@.len() == i,
            order@.to_multiset().count(true) == i,
            order@.to_multiset().count(false) == 0,
        decreases counts.unmutated - i,
    {
        order.push(true);
        i = i + 1;
    }
    let mut j: u32 = 0;
    while j < counts.mutated
        invariant
            j <= counts.mutated,
            order@.len() == counts.unmutated + j,
            order@.to_multiset().count(true) == counts.unmutated,
            order@.to_multiset().count(false) == j,
        decreases counts.mutated - j,
    {
        order.push(false);
        j = j + 1;
    }
    let ghost before = order@;
    shuffle(&mut order);
    assert(order@.len() == order@.to_multiset().len());
    assert(before.len() == before.to_multiset().len());
    order
}

/// One simulated agent: its controller, and whether it reached a target in the
/// generation before without having been mutated since.
pub struct Agent<G> {
    pub controller: G,
    pub survived_last_generation: bool,
}

/// What judging a generation found.
pub struct JudgeInfo<G> {
    /// Agents that reached a target and had already done so the generation before.
    pub non_mutated_survivors: u32,
    /// Copies of the agents that reached a target, in population order, each
    /// marked as a survivor.
    pub reached_target: Vec<Agent<G>>,
}

/// Positions of the `true` entries, in order.
pub open spec fn reached_indices(in_target: Seq<bool>) -> Seq<int>
    decreases in_target.len(),
{
    if in_target.len() == 0 {
        seq![]
    } else {
        let rest = reached_indices(in_target.drop_last());
        if in_target.last() {
            rest.push(in_target.len() - 1)
        } else {
            rest
        }
    }
}

/// Number of agents in a target that had already survived the generation before.
pub open spec fn repeat_survivors<G>(agents: Seq<Agent<G>>, in_target: Seq<bool>) -> nat
    decreases in_target.len(),
{
    if in_target.len() == 0 {
        0
    } else {
        let i = in_target.len() - 1;
        repeat_survivors(agents, in_target.drop_last()) + if in_target[i]
            && agents[i].survived_last_generation {
            1nat
        } else {
            0nat
        }
    }
}

/// The survivor flags of a sequence of agents.
pub open spec fn survivor_flags<G>(agents: Seq<Agent<G>>) -> Seq<bool> {
    agents.map_values(|a: Agent<G>| a.survived_last_generation)
}

proof fn lemma_repeat_survivors_bound<G>(agents: Seq<Agent<G>>, in_target: Seq<bool>)
    ensures
        repeat_survivors(agents, in_target) <= in_target.len(),
    decreases in_target.len(),
{
    if in_target.len() > 0 {
        lemma_repeat_survivors_bound(agents, in_target.drop_last());
    }
}

/// The current generation: a fixed number of agents, and the threshold at
/// which mutation stops.
pub struct Pool<G> {
    ai: Vec<Agent<G>>,
    size: u32,
    stop_mutate_threshold: Fraction,
}

impl<G> Pool<G> {
    /// The agents of the current generation, by index.
    pub closed spec fn agents(&self) -> Seq<Agent<G>> {
        self.ai@
    }

    /// The population size that every generation has.
    pub closed spec fn size(&self) -> u32 {
        self.size
    }

    /// The share of repeat survivors above which mutation stops.
    pub closed spec fn threshold(&self) -> Fraction {
        self.stop_mutate_threshold
    }

    /// The population holds exactly `size` agents.
    pub open spec fn wf(&self) -> bool {
        self.agents().len() == self.size()
    }

    /// A first generation of `population` fresh agents, each with a controller
    /// made by `fresh` and no survival behind it.
    pub fn new<F: Fn() -> G>(population: u32, stop_mutate_threshold: Fraction, fresh: F) -> (r: Self)
        requires
            fresh.requires(()),
        ensures
            r.wf(),
            r.size() == population,
            r.threshold() == stop_mutate_threshold,
            forall|i: int|
                0 <= i < population ==> fresh.ensures((), (#[trigger] r.agents()[i]).controller)
                    && !r.agents()[i].survived_last_generation,
    {
        let mut ai: Vec<Agent<G>> = Vec::new();
        let mut i: u32 = 0;
        while i < population
            invariant
                i <= population,
                ai@.len() == i,
                fresh.requires(()),
                forall|k: int|
                    0 <= k < i ==> fresh.ensures((), (#[trigger] ai@[k]).controller)
                        && !ai@[k].survived_last_generation,
            decreases population - i,
        {
            let controller = fresh();
            ai.push(Agent { controller, survived_last_generation: false });
            i = i + 1;
        }
        Pool { ai, size: population, stop_mutate_threshold }
    }

    /// The number of agents of every generation.
    pub fn size_of(&self) -> (r: u32)
        ensures
            r == self.size(),
    {
        self.size
    }

    /// The agents of the current generation.
    pub fn agents_of(&self) -> (r: &Vec<Agent<G>>)
        ensures
            r@ == self.agents(),
    {
        &self.ai
    }
}

impl<G: Clone> Pool<G> {
    /// Judges the generation: `in_target[i]` says whether agent `i` ended
    /// inside some target region. Agents outside every region are dropped; the
    /// others are copied, in order, marked as survivors; those that were
    /// already survivors are counted.
    pub fn judge_ai(&self, in_target: &Vec<bool>) -> (r: JudgeInfo<G>)
        requires
            self.wf(),
            in_target@.len() == self.agents().len(),
        ensures
            r.non_mutated_survivors == repeat_survivors(self.agents(), in_target@),
            r.reached_target@.len() == reached_indices(in_target@).len(),
            forall|k: int|
                0 <= k < r.reached_target@.len() ==> cloned(
                    self.agents()[reached_indices(in_target@)[k]].controller,
                    (#[trigger] r.reached_target@[k]).controller,
                ) && r.reached_target@[k].survived_last_generation,
    {
        let mut reached_target: Vec<Agent<G>> = Vec::new();
        let mut non_mutated_survivors: u32 = 0;
        let mut i: usize = 0;
        while i < in_target.len()
            invariant
                self.wf(),
                in_target@.len() == self.agents().len(),
                i <= in_target@.len(),
                non_mutated_survivors == repeat_survivors(self.agents(), in_target@.subrange(0, i as int)),
                reached_target@.len() == reached_indices(in_target@.subrange(0, i as int)).len(),
                forall|k: int|
                    0 <= k < reached_target@.len() ==> cloned(
                        self.agents()[reached_indices(in_target@.subrange(0, i as int))[k]].controller,
                        (#[trigger] reached_target@[k]).controller,
                    ) && reached_target@[k].survived_last_generation,
            decreases in_target@.len() - i,
        {
            let ghost prefix = in_target@.subrange(0, i as int);
            let ghost next = in_target@.subrange(0, i + 1);
            assert(next.drop_last() =~= prefix);
            proof {
                lemma_repeat_survivors_bound(self.agents(), prefix);
            }
            if in_target[i] {
                let agent = &self.ai[i];
                if agent.survived_last_generation {
                    non_mutated_survivors = non_mutated_survivors + 1;
                }
                let controller = agent.controller.clone();
                reached_target.push(Agent { controller, survived_last_generation: true });
            }
            i = i + 1;
        }
        assert(in_target@.subrange(0, in_target@.len() as int) =~= in_target@);
        JudgeInfo { non_mutated_survivors, reached_target }
    }
}

impl<G: Clone> Pool<G> {
    /// Builds the next generation from what judging found. When no agent
    /// reached a target the population is kept as it is. Otherwise the
    /// population is refilled to its size with copies of controllers drawn
    /// uniformly, with replacement, from those that reached a target:
    /// `unmutated_to_spawn` copies kept as they are (still marked as
    /// survivors) and `mutated_to_spawn` passed through `mutate` (marked as
    /// new), in random order.
    pub fn update_pool<F: Fn(&G) -> G>(&mut self, info: JudgeInfo<G>, mutate: F)
        requires
            old(self).wf(),
            forall|g: G| #[trigger] mutate.requires((&g,)),
        ensures
            final(self).wf(),
            final(self).size() == old(self).size(),
            final(self).threshold() == old(self).threshold(),
            info.reached_target@.len() == 0 ==> *final(self) == *old(self),
            info.reached_target@.len() > 0 ==> {
                &&& survivor_flags(final(self).agents()).to_multiset().count(true) == unmutated_to_spawn(
                    info.reached_target@.len(),
                    info.non_mutated_survivors as nat,
                    old(self).size() as nat,
                    old(self).threshold(),
                )
                &&& survivor_flags(final(self).agents()).to_multiset().count(false) == mutated_to_spawn(
                    info.reached_target@.len(),
                    info.non_mutated_survivors as nat,
                    old(self).size() as nat,
                    old(self).threshold(),
                )
                &&& forall|i: int|
                    0 <= i < final(self).agents().len() && (#[trigger] final(self).agents()[i]).survived_last_generation
                        ==> exists|j: int|
                        0 <= j < info.reached_target@.len() && cloned(
                            info.reached_target@[j].controller,
                            final(self).agents()[i].controller,
                        )
                &&& forall|i: int|
                    0 <= i < final(self).agents().len() && !(#[trigger] final(self).agents()[i]).survived_last_generation
                        ==> exists|j: int|
                        0 <= j < info.reached_target@.len() && mutate.ensures(
                            (&info.reached_target@[j].controller,),
                            final(self).agents()[i].controller,
                        )
            },
    {
        let reached = info.reached_target;
        let reached_len = reached.len();
        if reached_len == 0 {
            return;
        }
        let ghost size = self.size as nat;
        let successes: u32 = if reached_len < self.size as usize {
            reached_len as u32
        } else {
            self.size
        };
        proof {
            if reached_len >= size {
                lemma_growth_saturates(reached_len as nat, size);
                lemma_growth_saturates(size, size);
            }
        }
        let counts = spawn_counts(
            successes,
            info.non_mutated_survivors,
            self.size,
            self.stop_mutate_threshold,
        );
        let order = spawn_order(counts);
        let mut next: Vec<Agent<G>> = Vec::new();
        let mut i: usize = 0;
        while i < order.len()
            invariant
                i <= order@.len(),
                next@.len() == i,
                reached@.len() == reached_len,
                reached_len > 0,
                forall|g: G| #[trigger] mutate.requires((&g,)),
                forall|k: int| 0 <= k < i ==> (#[trigger] next@[k]).survived_last_generation == order@[k],
                forall|k: int|
                    0 <= k < i && (#[trigger] next@[k]).survived_last_generation ==> exists|j: int|
                        0 <= j < reached_len && cloned(reached@[j].controller, next@[k].controller),
                forall|k: int|
                    0 <= k < i && !(#[trigger] next@[k]).survived_last_generation ==> exists|j: int|
                        0 <= j < reached_len && mutate.ensures(
                            (&reached@[j].controller,),
                            next@[k].controller,
                        ),
            decreases order@.len() - i,
        {
            let j = random_index(reached_len);
            if order[i] {
                let controller = reached[j].controller.clone();
                next.push(Agent { controller, survived_last_generation: true });
                assert(cloned(reached@[j as int].controller, next@[i as int].controller));
            } else {
                let controller = mutate(&reached[j].controller);
                next.push(Agent { controller, survived_last_generation: false });
                assert(mutate.ensures((&reached@[j as int].controller,), next@[i as int].controller));
            }
            i = i + 1;
        }
        assert(survivor_flags(next@) =~= order@);
        self.ai = next;
    }
}

} // verus!
