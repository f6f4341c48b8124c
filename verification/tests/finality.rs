use lasso::listeners::finality::Finality;
use lasso::listeners::observation::{BlockId, Standing, Verdict};

fn hash(lo: u128) -> BlockId {
    BlockId::Hash { hi: 0, lo }
}

#[test]
fn new_bookkeeping_has_nothing_final() {
    let finality = Finality::new();
    assert_eq!(finality.final_below(), 0);
    assert_eq!(finality.pending_len(), 0);
}

#[test]
fn first_sighting_settles_everything_deeper_than_the_threshold() {
    let mut finality = Finality::new();
    let verdict = finality.observe(7, 100, hash(1));
    assert_eq!(
        verdict,
        Verdict { standing: Standing::Fresh, settled_from: 0, settled_below: 93 }
    );
    assert_eq!(finality.final_below(), 93);
    assert_eq!(finality.pending_len(), 1);
}

#[test]
fn heights_within_the_threshold_stay_pending() {
    let mut finality = Finality::new();
    for height in 0..=7u64 {
        let verdict = finality.observe(7, height, hash(height as u128));
        assert_eq!(verdict.standing, Standing::Fresh);
        assert_eq!(verdict.settled_below, 0);
    }
    assert_eq!(finality.pending_len(), 8);
    let verdict = finality.observe(7, 8, hash(8));
    assert_eq!(
        verdict,
        Verdict { standing: Standing::Fresh, settled_from: 0, settled_below: 1 }
    );
    assert_eq!(finality.pending_len(), 8);
}

#[test]
fn consecutive_blocks_settle_one_height_each() {
    let mut finality = Finality::new();
    finality.observe(7, 100, hash(100));
    for height in 101..=110u64 {
        let verdict = finality.observe(7, height, hash(height as u128));
        assert_eq!(
            verdict,
            Verdict {
                standing: Standing::Fresh,
                settled_from: height - 8,
                settled_below: height - 7,
            }
        );
    }
    assert_eq!(finality.final_below(), 103);
    assert_eq!(finality.pending_len(), 8);
}

#[test]
fn same_block_again_is_repeated() {
    let mut finality = Finality::new();
    finality.observe(7, 51, BlockId::Unknown);
    let verdict = finality.observe(7, 51, BlockId::Unknown);
    assert_eq!(
        verdict,
        Verdict { standing: Standing::Repeated, settled_from: 44, settled_below: 44 }
    );
    assert_eq!(finality.pending_len(), 1);
}

#[test]
fn other_block_at_a_pending_height_is_a_reorganisation() {
    let mut finality = Finality::new();
    finality.observe(7, 100, hash(1));
    finality.observe(7, 101, hash(2));
    finality.observe(7, 102, hash(3));
    assert_eq!(finality.pending_len(), 3);
    let verdict = finality.observe(7, 101, hash(20));
    assert_eq!(
        verdict,
        Verdict { standing: Standing::Reorganized, settled_from: 95, settled_below: 95 }
    );
    assert_eq!(finality.pending_len(), 2);
    let verdict = finality.observe(7, 102, hash(3));
    assert_eq!(verdict.standing, Standing::Fresh);
    let verdict = finality.observe(7, 101, hash(20));
    assert_eq!(verdict.standing, Standing::Repeated);
}

#[test]
fn lower_height_never_seen_is_a_reorganisation() {
    let mut finality = Finality::new();
    finality.observe(7, 100, hash(1));
    finality.observe(7, 105, hash(2));
    let verdict = finality.observe(7, 103, hash(3));
    assert_eq!(
        verdict,
        Verdict { standing: Standing::Reorganized, settled_from: 98, settled_below: 98 }
    );
    assert_eq!(finality.pending_len(), 2);
}

#[test]
fn final_height_is_never_reopened() {
    let mut finality = Finality::new();
    finality.observe(7, 100, hash(1));
    assert_eq!(finality.final_below(), 93);
    let verdict = finality.observe(7, 92, hash(9));
    assert_eq!(
        verdict,
        Verdict { standing: Standing::Settled, settled_from: 93, settled_below: 93 }
    );
    let verdict = finality.observe(7, 0, hash(9));
    assert_eq!(verdict.standing, Standing::Settled);
    assert_eq!(finality.final_below(), 93);
    assert_eq!(finality.pending_len(), 1);
    let verdict = finality.observe(7, 93, hash(9));
    assert_eq!(verdict.standing, Standing::Reorganized);
    assert_eq!(finality.final_below(), 93);
}

#[test]
fn bound_never_falls() {
    let mut finality = Finality::new();
    let heights = vec![100u64, 120, 119, 50, 113, 300, 0, 299, 294, 293, 292];
    let mut bound = 0;
    for (step, height) in heights.iter().enumerate() {
        let verdict = finality.observe(7, *height, hash(step as u128));
        assert_eq!(verdict.settled_from, bound);
        assert!(verdict.settled_below >= bound);
        bound = verdict.settled_below;
        assert_eq!(finality.final_below(), bound);
    }
    assert_eq!(bound, 293);
}

#[test]
fn threshold_of_zero_settles_everything_below_the_tip() {
    let mut finality = Finality::new();
    let verdict = finality.observe(0, 10, hash(1));
    assert_eq!(
        verdict,
        Verdict { standing: Standing::Fresh, settled_from: 0, settled_below: 10 }
    );
    let verdict = finality.observe(0, 10, hash(2));
    assert_eq!(verdict.standing, Standing::Reorganized);
    let verdict = finality.observe(0, 9, hash(2));
    assert_eq!(verdict.standing, Standing::Settled);
    assert_eq!(finality.pending_len(), 1);
}

#[test]
fn largest_height_and_threshold_are_taken() {
    let mut finality = Finality::new();
    let verdict = finality.observe(u64::MAX, u64::MAX, hash(1));
    assert_eq!(
        verdict,
        Verdict { standing: Standing::Fresh, settled_from: 0, settled_below: 0 }
    );
    let verdict = finality.observe(7, u64::MAX, hash(1));
    assert_eq!(
        verdict,
        Verdict { standing: Standing::Repeated, settled_from: 0, settled_below: u64::MAX - 7 }
    );
    assert_eq!(finality.pending_len(), 1);
}

#[test]
fn a_repeated_sighting_under_a_smaller_threshold_prunes() {
    let mut finality = Finality::new();
    finality.observe(10, 100, hash(1));
    finality.observe(10, 101, hash(2));
    finality.observe(10, 102, hash(3));
    assert_eq!(finality.final_below(), 92);
    let verdict = finality.observe(1, 102, hash(3));
    assert_eq!(
        verdict,
        Verdict { standing: Standing::Repeated, settled_from: 92, settled_below: 101 }
    );
    assert_eq!(finality.pending_len(), 2);
}
