//! Positions in the delay line and the tempo-synced delay lengths.
use vstd::prelude::*;
use crate::sound::SyncValue;

verus! {

/// Number of samples in the delay line.
pub const BUFF_LEN: usize = 44100;

/// Advances a position in the delay line by `add` samples, wrapping
/// around its end.
pub fn wrap_add(value: usize, add: usize) -> (r: usize)
    requires
        value + add <= usize::MAX,
    ensures
        r == (value + add) % (BUFF_LEN as int),
{
    let mut value = value + add;
    let ghost total = value;
    let ghost mut k: int = 0;
    while value >= BUFF_LEN
        invariant
            total == value + k * BUFF_LEN,
            k >= 0,
        decreases value,
    {
        value -= BUFF_LEN;
        proof {
            k = k + 1;
        }
    }
    proof {
        vstd::arithmetic::div_mod::lemma_fundamental_div_mod_converse(total as int, BUFF_LEN as int, k, value as int);
    }
    value
}

/// Number of samples from position `b` forward to position `a`; a full
/// turn of the delay line when they are equal.
pub fn wrap_diff(a: usize, b: usize) -> (r: usize)
    requires
        b <= a + BUFF_LEN,
        a + BUFF_LEN <= usize::MAX,
    ensures
        a > b ==> r == a - b,
        a <= b ==> r == a + BUFF_LEN - b,
{
    if a > b {
        a - b
    } else {
        (a + BUFF_LEN) - b
    }
}

/// Length of a tempo-synced delay, in sixteenth notes.
pub open spec fn spec_sync_sixteenths(sync: SyncValue) -> int {
    match sync {
        SyncValue::Whole => 16,
        SyncValue::DottedHalf => 12,
        SyncValue::Half => 8,
        SyncValue::DottedQuarter => 6,
        SyncValue::Quarter => 4,
        SyncValue::DottedEigth => 3,
        SyncValue::Eigth => 2,
        SyncValue::Sixteenth => 1,
        SyncValue::Off => 0,
    }
}

/// Length of a tempo-synced delay in sixteenth notes, or `None` if the
/// delay is not synced to the tempo.
pub fn sync_sixteenths(sync: SyncValue) -> (r: Option<u32>)
    ensures
        sync == SyncValue::Off ==> r is None,
        sync != SyncValue::Off ==> r == Some(spec_sync_sixteenths(sync) as u32),
{
    match sync {
        SyncValue::Off => None,
        SyncValue::Whole => Some(16),
        SyncValue::DottedHalf => Some(12),
        SyncValue::Half => Some(8),
        SyncValue::DottedQuarter => Some(6),
        SyncValue::Quarter => Some(4),
        SyncValue::DottedEigth => Some(3),
        SyncValue::Eigth => Some(2),
        SyncValue::Sixteenth => Some(1),
    }
}

/// A dotted note lasts one and a half times the plain note.
pub proof fn lemma_dotted_lengths()
    ensures
        2 * spec_sync_sixteenths(SyncValue::DottedHalf) == 3 * spec_sync_sixteenths(SyncValue::Half),
        2 * spec_sync_sixteenths(SyncValue::DottedQuarter) == 3 * spec_sync_sixteenths(SyncValue::Quarter),
        2 * spec_sync_sixteenths(SyncValue::DottedEigth) == 3 * spec_sync_sixteenths(SyncValue::Eigth),
{
}

} // verus!
