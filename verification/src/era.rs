//! How long a signed transaction stays valid.

use vstd::prelude::*;

verus! {

/// The range of blocks in which a transaction can be included.
#[derive(Clone, Copy, Debug, PartialEq, Eq, Structural)]
pub enum Era {
    /// Valid forever.
    Immortal,
    /// Valid for `.0` blocks, in a window that starts where the block number
    /// is `.1` modulo `.0`.
    Mortal(u64, u64),
}

/// The period that an era gets when `period` is asked for: the next power of
/// two, no less than 4 and no more than 65536.
pub open spec fn era_period(period: u64) -> u64 {
    if period <= 4 {
        4
    } else if period <= 8 {
        8
    } else if period <= 16 {
        16
    } else if period <= 32 {
        32
    } else if period <= 64 {
        64
    } else if period <= 128 {
        128
    } else if period <= 256 {
        256
    } else if period <= 512 {
        512
    } else if period <= 1024 {
        1024
    } else if period <= 2048 {
        2048
    } else if period <= 4096 {
        4096
    } else if period <= 8192 {
        8192
    } else if period <= 16384 {
        16384
    } else if period <= 32768 {
        32768
    } else {
        65536
    }
}

/// The step in which the phase of an era of `period` blocks is counted:
/// periods over 4096 keep only 4096 distinct phases.
pub open spec fn quantize_factor(period: u64) -> u64 {
    if period <= 4096 {
        1
    } else {
        period / 4096
    }
}

/// The mortal era of about `period` blocks that is current at block
/// `current`.
pub open spec fn mortal_era(period: u64, current: u64) -> Era {
    let period = era_period(period);
    let factor = quantize_factor(period);
    Era::Mortal(period, (current % period / factor * factor) as u64)
}

/// The block one behind `head_number`, on which a transaction built at that
/// head is anchored.
pub open spec fn anchor_block(head_number: u32) -> u32 {
    if head_number == 0 {
        0
    } else {
        (head_number - 1) as u32
    }
}

impl Era {
    /// The first block of the window that `current` lies in.
    pub open spec fn birth(self, current: u64) -> int {
        match self {
            Era::Immortal => 0,
            Era::Mortal(period, phase) => {
                let from = if current > phase {
                    current
                } else {
                    phase
                };
                (from - phase) / (period as int) * period + phase
            },
        }
    }

    /// The first block after the window that `current` lies in.
    pub open spec fn death(self, current: u64) -> int {
        match self {
            Era::Immortal => u64::MAX as int,
            Era::Mortal(period, phase) => self.birth(current) + period,
        }
    }
}

/// Calls `sp_runtime::generic::Era::mortal`, which rounds the period up to a
/// power of two between 4 and 65536 and takes as phase the block number
/// modulo that period, counted in steps of the quantize factor.
#[verifier::external_body]
fn era_mortal(period: u64, current: u64) -> (era: Era)
    ensures
        era == mortal_era(period, current),
{
    match sp_runtime::generic::Era::mortal(period, current) {
        sp_runtime::generic::Era::Immortal => Era::Immortal,
        sp_runtime::generic::Era::Mortal(period, phase) => Era::Mortal(period, phase),
    }
}

/// The era of a transaction built at the head of height `head_number`: it
/// lasts half of `block_hash_count`, the number of recent block hashes that
/// the ledger keeps, and is anchored one block behind the head.
pub fn transaction_era(head_number: u32, block_hash_count: u32) -> (era: Era)
    ensures
        era == mortal_era((block_hash_count / 2) as u64, anchor_block(head_number) as u64),
{
    let period: u32 = block_hash_count / 2;
    let current_block: u32 = if head_number == 0 {
        0
    } else {
        head_number - 1
    };
    era_mortal(period as u64, current_block as u64)
}

/// The window of a mortal era made at a block holds that block and is as long
/// as the era's period.
pub proof fn lemma_era_covers_its_block(period: u64, current: u64)
    ensures
        mortal_era(period, current) is Mortal,
        mortal_era(period, current).birth(current) <= current,
        current < mortal_era(period, current).death(current),
        mortal_era(period, current).death(current) - mortal_era(period, current).birth(current)
            == era_period(period),
{
    let p = era_period(period) as int;
    let q = quantize_factor(era_period(period)) as int;
    let raw = (current % era_period(period)) as int;
    let phase = raw / q * q;
    assert(0 <= phase <= raw) by (nonlinear_arith)
        requires
            q > 0,
            raw >= 0,
            phase == raw / q * q,
    ;
    let span = current - phase;
    assert(span / p * p <= span < span / p * p + p) by (nonlinear_arith)
        requires
            p > 0,
            span >= 0,
    ;
}

} // verus!
