use ljka::pool::{Agent, Fraction, JudgeInfo, Pool};

fn threshold() -> Fraction {
    Fraction { numerator: 9, denominator: 10 }
}

fn numbered_pool(n: u32) -> Pool<u32> {
    let mut pool = Pool::new(n, threshold(), || 0u32);
    // give each agent its own controller value through one generation
    let reached: Vec<Agent<u32>> = (0..n)
        .map(|i| Agent { controller: i, survived_last_generation: true })
        .collect();
    pool.update_pool(JudgeInfo { non_mutated_survivors: n, reached_target: reached }, |c: &u32| *c);
    pool
}

#[test]
fn new_pool_has_fresh_agents() {
    let pool = Pool::new(5, threshold(), || 7i64);
    assert_eq!(pool.size_of(), 5);
    assert_eq!(pool.agents_of().len(), 5);
    for a in pool.agents_of() {
        assert_eq!(a.controller, 7);
        assert!(!a.survived_last_generation);
    }
}

#[test]
fn four_agents_in_one_square_all_reach_then_refill() {
    let mut pool = Pool::new(4, threshold(), || vec![0.5f32, -0.25]);
    let info = pool.judge_ai(&vec![true, true, true, true]);
    assert_eq!(info.reached_target.len(), 4);
    assert_eq!(info.non_mutated_survivors, 0);
    assert!(info.reached_target.iter().all(|a| a.survived_last_generation));
    pool.update_pool(info, |c: &Vec<f32>| c.iter().map(|x| x + 0.0).collect());
    assert_eq!(pool.agents_of().len(), 4);
}

#[test]
fn judge_keeps_order_and_counts_repeat_survivors() {
    let mut pool = Pool::new(3, threshold(), || 0u32);
    let info = pool.judge_ai(&vec![true, false, true]);
    assert_eq!(info.reached_target.len(), 2);
    assert_eq!(info.non_mutated_survivors, 0);
    // the kept copies are marked as survivors, so judging them again counts
    // each of them as a repeat survivor
    pool.update_pool(info, |c: &u32| c + 1);
    let flags: Vec<bool> = pool.agents_of().iter().map(|a| a.survived_last_generation).collect();
    let inside: Vec<bool> = vec![true, true, true];
    let again = pool.judge_ai(&inside);
    assert_eq!(again.non_mutated_survivors as usize, flags.iter().filter(|f| **f).count());
    assert_eq!(again.reached_target.len(), 3);

    let pool = numbered_pool(5);
    let info = pool.judge_ai(&vec![false, true, false, false, true]);
    let kept: Vec<u32> = info.reached_target.iter().map(|a| a.controller).collect();
    let expect: Vec<u32> = vec![pool.agents_of()[1].controller, pool.agents_of()[4].controller];
    assert_eq!(kept, expect);
}

#[test]
fn update_without_successes_keeps_population() {
    let mut pool = numbered_pool(6);
    let before: Vec<(u32, bool)> =
        pool.agents_of().iter().map(|a| (a.controller, a.survived_last_generation)).collect();
    pool.update_pool(JudgeInfo { non_mutated_survivors: 0, reached_target: Vec::new() }, |c: &u32| c + 100);
    let after: Vec<(u32, bool)> =
        pool.agents_of().iter().map(|a| (a.controller, a.survived_last_generation)).collect();
    assert_eq!(before, after);
}

#[test]
fn population_size_is_kept_across_generations() {
    let mut pool = Pool::new(10, threshold(), || 0u32);
    for generation in 0..20usize {
        let inside: Vec<bool> = (0..10).map(|i| (i + generation) % 3 == 0).collect();
        let info = pool.judge_ai(&inside);
        pool.update_pool(info, |c: &u32| c.wrapping_add(1));
        assert_eq!(pool.agents_of().len(), 10);
        assert_eq!(pool.size_of(), 10);
    }
}

#[test]
fn update_draws_only_from_successful_controllers() {
    let mut pool = Pool::new(50, threshold(), || 0u32);
    let reached: Vec<Agent<u32>> = [3u32, 11, 40]
        .iter()
        .map(|c| Agent { controller: *c, survived_last_generation: true })
        .collect();
    // 3 of 50 succeeded: growth gives 20 kept, 30 mutated (+1000)
    pool.update_pool(JudgeInfo { non_mutated_survivors: 0, reached_target: reached }, |c: &u32| c + 1000);
    let kept: Vec<u32> = pool
        .agents_of()
        .iter()
        .filter(|a| a.survived_last_generation)
        .map(|a| a.controller)
        .collect();
    let mutated: Vec<u32> = pool
        .agents_of()
        .iter()
        .filter(|a| !a.survived_last_generation)
        .map(|a| a.controller)
        .collect();
    assert_eq!(kept.len(), 20);
    assert_eq!(mutated.len(), 30);
    assert!(kept.iter().all(|c| [3, 11, 40].contains(c)));
    assert!(mutated.iter().all(|c| [1003, 1011, 1040].contains(c)));
}

#[test]
fn converged_population_is_not_mutated() {
    let mut pool = Pool::new(10, threshold(), || 0u32);
    let reached: Vec<Agent<u32>> =
        (0..10).map(|c| Agent { controller: c, survived_last_generation: true }).collect();
    pool.update_pool(JudgeInfo { non_mutated_survivors: 10, reached_target: reached }, |c: &u32| c + 1000);
    assert!(pool.agents_of().iter().all(|a| a.survived_last_generation && a.controller < 10));
}

#[test]
fn next_generation_order_is_shuffled() {
    // with two kept slots and one mutated slot, an unshuffled order would
    // always put the mutated copy last
    let mut mutated_early = false;
    for _ in 0..200 {
        let mut pool = Pool::new(3, threshold(), || 0u32);
        let reached = vec![Agent { controller: 5u32, survived_last_generation: true }];
        // one of three succeeded: round(6 / (sqrt(3) + 1)) = 2 kept, 1 mutated
        pool.update_pool(JudgeInfo { non_mutated_survivors: 0, reached_target: reached }, |c: &u32| c + 1);
        let flags: Vec<bool> = pool.agents_of().iter().map(|a| a.survived_last_generation).collect();
        assert_eq!(flags.iter().filter(|f| **f).count(), 2);
        if !flags[0] || !flags[1] {
            mutated_early = true;
        }
    }
    assert!(mutated_early);
}

#[test]
fn more_successes_than_agents_keep_everyone_unmutated() {
    let mut pool = Pool::new(4, threshold(), || 0u32);
    let reached: Vec<Agent<u32>> =
        (0..8).map(|c| Agent { controller: c, survived_last_generation: true }).collect();
    pool.update_pool(JudgeInfo { non_mutated_survivors: 0, reached_target: reached }, |c: &u32| c + 1000);
    assert_eq!(pool.agents_of().len(), 4);
    assert!(pool.agents_of().iter().all(|a| a.survived_last_generation && a.controller < 8));
}
