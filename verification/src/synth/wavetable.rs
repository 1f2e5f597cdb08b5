//! Rearranging the samples of a wavetable.
use vstd::prelude::*;

verus! {

/// Rotates the first `num_values` samples of `table` by `offset` places
/// (sample `i` moves to `(i + offset) % num_values`), then repeats the new
/// first sample after them, as the last sample of an octave table repeats
/// its first for interpolation. Samples after that are unchanged. With no
/// samples to rotate the table stays as it is.
pub fn shift<T: Copy>(table: &mut [T], num_values: usize, offset: usize)
    requires
        num_values > 0 ==> offset < num_values,
        num_values < old(table)@.len(),
    ensures
        final(table)@.len() == old(table)@.len(),
        forall|i: int| 0 <= i < num_values ==> #[trigger] final(table)@[(i + offset) % (num_values as int)] == old(table)@[i],
        num_values > 0 ==> final(table)@[num_values as int] == old(table)@[(num_values - offset) % (
            num_values as int)],
        num_values == 0 ==> final(table)@ == old(table)@,
        forall|i: int| num_values < i < old(table)@.len() ==> #[trigger] final(table)@[i] == old(table)@[i],
{
    let ghost orig = table@;
    let n = num_values;
    if n == 0 {
        return;
    }
    let mut temp: Vec<T> = Vec::new();
    let mut k: usize = 0;
    while k < n
        invariant
            table@ == orig,
            offset < n,
            n < orig.len(),
            k <= n,
            temp@.len() == k,
            forall|j: int| 0 <= j < k ==> #[trigger] temp@[j] == orig[(j + n - offset) % (n as int)],
        decreases n - k,
    {
        let src: usize = if k >= offset {
            k - offset
        } else {
            n - offset + k
        };
        proof {
            if k >= offset {
                vstd::arithmetic::div_mod::lemma_fundamental_div_mod_converse(
                    (k + n - offset) as int,
                    n as int,
                    1,
                    (k - offset) as int,
                );
            } else {
                vstd::arithmetic::div_mod::lemma_fundamental_div_mod_converse(
                    (k + n - offset) as int,
                    n as int,
                    0,
                    (k + n - offset) as int,
                );
            }
        }
        temp.push(table[src]);
        k += 1;
    }
    let mut i: usize = 0;
    while i < n
        invariant
            offset < n,
            n < orig.len(),
            i <= n,
            temp@.len() == n,
            table@.len() == orig.len(),
            forall|j: int| 0 <= j < n ==> #[trigger] temp@[j] == orig[(j + n - offset) % (n as int)],
            forall|j: int| 0 <= j < i ==> #[trigger] table@[j] == temp@[j],
            forall|j: int| i <= j < orig.len() ==> #[trigger] table@[j] == orig[j],
        decreases n - i,
    {
        table[i] = temp[i];
        i += 1;
    }
    table[n] = table[0];
    proof {
        assert forall|i: int| 0 <= i < num_values implies #[trigger] table@[(i + offset) % (num_values as int)]
            == orig[i] by {
            let k = (i + offset) % (n as int);
            if i + offset < n {
                vstd::arithmetic::div_mod::lemma_fundamental_div_mod_converse(i + offset, n as int, 0, i + offset);
                vstd::arithmetic::div_mod::lemma_fundamental_div_mod_converse(k + n - offset, n as int, 1, i);
            } else {
                vstd::arithmetic::div_mod::lemma_fundamental_div_mod_converse(i + offset, n as int, 1, i + offset - n);
                vstd::arithmetic::div_mod::lemma_fundamental_div_mod_converse(k + n - offset, n as int, 0, i);
            }
            assert(table@[k] == temp@[k]);
        }
        if offset == 0 {
            vstd::arithmetic::div_mod::lemma_fundamental_div_mod_converse(n as int, n as int, 1, 0);
        } else {
            vstd::arithmetic::div_mod::lemma_fundamental_div_mod_converse(n - offset, n as int, 0, n - offset);
        }
        assert(temp@[0] == orig[(0 + n - offset) % (n as int)]);
    }
}

} // verus!
