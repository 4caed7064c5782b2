use staking_miner::era::{transaction_era, Era};

fn outside(era: Era) -> sp_runtime::generic::Era {
    match era {
        Era::Immortal => sp_runtime::generic::Era::Immortal,
        Era::Mortal(period, phase) => sp_runtime::generic::Era::Mortal(period, phase),
    }
}

#[test]
fn era_is_anchored_one_block_behind_the_head() {
    assert_eq!(transaction_era(100, 4096), Era::Mortal(2048, 99));
    assert_eq!(transaction_era(1, 4096), Era::Mortal(2048, 0));
    assert_eq!(transaction_era(2049, 4096), Era::Mortal(2048, 0));
    assert_eq!(transaction_era(2050, 4096), Era::Mortal(2048, 1));
}

#[test]
fn era_at_the_first_block() {
    assert_eq!(transaction_era(0, 4096), Era::Mortal(2048, 0));
}

#[test]
fn era_period_is_rounded_up_to_a_power_of_two() {
    assert_eq!(transaction_era(1, 2400), Era::Mortal(2048, 0));
    assert_eq!(transaction_era(1, 4098), Era::Mortal(4096, 0));
    assert_eq!(transaction_era(11, 10), Era::Mortal(8, 2));
    assert_eq!(transaction_era(11, 18), Era::Mortal(16, 10));
}

#[test]
fn era_period_is_at_least_four() {
    assert_eq!(transaction_era(8, 0), Era::Mortal(4, 3));
    assert_eq!(transaction_era(8, 1), Era::Mortal(4, 3));
    assert_eq!(transaction_era(8, 8), Era::Mortal(4, 3));
}

#[test]
fn era_period_is_at_most_65536() {
    assert_eq!(transaction_era(1, u32::MAX), Era::Mortal(65536, 0));
    assert_eq!(transaction_era(101, 131072), Era::Mortal(65536, 96));
    assert_eq!(transaction_era(101, 200000), Era::Mortal(65536, 96));
}

#[test]
fn a_long_era_counts_its_phase_in_steps() {
    assert_eq!(transaction_era(100000, 40000), Era::Mortal(32768, 1688));
    assert_eq!(transaction_era(u32::MAX, 16384), Era::Mortal(8192, 8190));
}

#[test]
fn era_window_holds_the_anchor_block() {
    for (head, count) in [(100u32, 4096u32), (5, 0), (100000, 40000), (u32::MAX, u32::MAX)] {
        let era = transaction_era(head, count);
        let anchor = u64::from(head - 1);
        let outside = outside(era);
        assert_eq!(outside, sp_runtime::generic::Era::mortal(u64::from(count / 2), anchor));
        assert!(outside.birth(anchor) <= anchor);
        assert!(anchor < outside.death(anchor));
        match era {
            Era::Mortal(period, _) => assert_eq!(outside.death(anchor) - outside.birth(anchor), period),
            Era::Immortal => panic!("a transaction era is mortal"),
        }
    }
}

/// The period that an era gets when `period` is asked for.
fn rounded(period: u64) -> u64 {
    let mut power = 4;
    while power < period && power < 65536 {
        power *= 2;
    }
    power
}

#[test]
fn era_follows_the_rounding_and_the_quantizing() {
    let counts = [0u32, 1, 7, 8, 9, 10, 16, 17, 100, 2400, 4096, 8191, 8192, 8193, 16384, 20000,
        65536, 131072, 131073, 1 << 20, u32::MAX];
    let heads = [0u32, 1, 2, 3, 4, 5, 100, 4095, 4096, 4097, 65535, 65536, 65537, 1 << 24,
        u32::MAX - 1, u32::MAX];
    for count in counts {
        for head in heads {
            let period = rounded(u64::from(count / 2));
            let factor = if period <= 4096 { 1 } else { period / 4096 };
            let anchor = u64::from(head.saturating_sub(1));
            let phase = anchor % period / factor * factor;
            assert_eq!(transaction_era(head, count), Era::Mortal(period, phase));
        }
    }
}
