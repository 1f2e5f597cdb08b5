//! A ring buffer index over a caller-owned slice.
//!
//! The `Ringbuffer` only keeps the write position; the storage itself is a
//! slice that the caller hands in on every call. Values are read back by
//! their age: index 0 is the value written last, index 1 the one before, and
//! so on, wrapping around the length of the slice.
use vstd::prelude::*;

verus! {

/// Position in a ring of `len` slots that lies `age` steps behind `pos`,
/// taken modulo `len`.
pub open spec fn ring_slot(pos: int, age: int, len: int) -> int {
    (pos - age) % len
}

pub struct Ringbuffer {
    /// Position of the value written last.
    write_pos: usize,
}

impl Ringbuffer {
    /// The current write position (the slot of the value written last).
    pub closed spec fn pos(&self) -> nat {
        self.write_pos as nat
    }

    pub fn new() -> (rb: Ringbuffer)
        ensures
            rb.pos() == 0,
    {
        let write_pos: usize = 0;
        Ringbuffer { write_pos }
    }

    /// Fills every slot of `buffer` with the default value of `T`.
    pub fn init<T: Default>(&mut self, buffer: &mut [T])
        ensures
            final(self).pos() == old(self).pos(),
            final(buffer)@.len() == old(buffer)@.len(),
            forall|i: int|
                0 <= i < final(buffer)@.len() ==> call_ensures(T::default, (), #[trigger] final(buffer)@[i]),
    {
        let len = buffer.len();
        let mut i: usize = 0;
        while i < len
            invariant
                len == buffer@.len(),
                i <= len,
                forall|j: int| 0 <= j < i ==> call_ensures(T::default, (), #[trigger] buffer@[j]),
            decreases len - i,
        {
            buffer[i] = T::default();
            i += 1;
        }
    }

    /// Advances the write position by one slot (wrapping) and stores `value`
    /// there.
    pub fn add<T>(&mut self, buffer: &mut [T], value: T)
        requires
            old(self).pos() + 1 < 2 * old(buffer)@.len(),
        ensures
            final(self).pos() == (old(self).pos() as int + 1) % (old(buffer)@.len() as int),
            final(buffer)@ == old(buffer)@.update(final(self).pos() as int, value),
    {
        let len = buffer.len();
        self.write_pos = Ringbuffer::inc(self.write_pos, len);
        buffer[self.write_pos] = value;
    }

    /// Gets a value from the ring buffer.
    ///
    /// `index` is the age of the value: the higher the index, the further
    /// back from the write position it is.
    pub fn get<T: Copy>(&mut self, buffer: &[T], index: usize) -> (r: T)
        requires
            buffer@.len() > 0,
            old(self).pos() < buffer@.len() + (index as int) % (buffer@.len() as int),
        ensures
            *final(self) == *old(self),
            r == buffer@[ring_slot(old(self).pos() as int, index as int, buffer@.len() as int)],
    {
        let len = buffer.len();
        let mut idx = index;
        let ghost mut k: int = 0;
        while idx >= len
            invariant
                len == buffer@.len(),
                len > 0,
                index == idx + k * len,
                k >= 0,
            decreases idx,
        {
            let ghost prev = idx;
            idx -= len;
            proof {
                assert(index == idx + (k + 1) * len) by (nonlinear_arith)
                    requires
                        index == prev + k * len,
                        idx == prev - len,
                ;
                k = k + 1;
            }
        }
        proof {
            vstd::arithmetic::div_mod::lemma_fundamental_div_mod_converse(
                index as int,
                len as int,
                k,
                idx as int,
            );
        }
        let slot = Ringbuffer::sub(self.write_pos, idx, len);
        proof {
            let w = self.write_pos as int;
            if w < idx {
                assert(w - index == (-k - 1) * len + slot) by (nonlinear_arith)
                    requires
                        index == idx + k * len,
                        slot == w + len - idx,
                ;
                vstd::arithmetic::div_mod::lemma_fundamental_div_mod_converse(
                    w - index,
                    len as int,
                    -k - 1,
                    slot as int,
                );
            } else {
                assert(w - index == (-k) * len + slot) by (nonlinear_arith)
                    requires
                        index == idx + k * len,
                        slot == w - idx,
                ;
                vstd::arithmetic::div_mod::lemma_fundamental_div_mod_converse(
                    w - index,
                    len as int,
                    -k,
                    slot as int,
                );
            }
        }
        buffer[slot]
    }

    fn inc(val: usize, max: usize) -> (r: usize)
        requires
            val + 1 < 2 * max,
        ensures
            r == (val + 1) % (max as int),
            r < max,
    {
        let r = if val >= max - 1 {
            val - (max - 1)
        } else {
            val + 1
        };
        proof {
            if val + 1 >= max {
                vstd::arithmetic::div_mod::lemma_fundamental_div_mod_converse(
                    val + 1,
                    max as int,
                    1,
                    r as int,
                );
            } else {
                vstd::arithmetic::div_mod::lemma_fundamental_div_mod_converse(
                    val + 1,
                    max as int,
                    0,
                    r as int,
                );
            }
        }
        r
    }

    fn sub(value: usize, dec: usize, len: usize) -> (r: usize)
        requires
            dec < len,
            value < len + dec,
        ensures
            r < len,
            value >= dec ==> r == value - dec,
            value < dec ==> r == value + len - dec,
    {
        if value < dec {
            len - (dec - value)
        } else {
            value - dec
        }
    }
}

/// What a read gives back of a write: right after `add` stored `value` in
/// `buffer` (write position `pos` before, `(pos + 1) % len` after), reading
/// age 0 gives `value`, and reading age `a` (0 < a < len) gives what age
/// `a - 1` gave before the add; only the oldest value is overwritten.
pub proof fn lemma_add_then_get<T>(buffer: Seq<T>, pos: int, value: T, age: int)
    requires
        buffer.len() > 0,
        0 <= pos,
        pos + 1 < 2 * buffer.len(),
        0 < age < buffer.len(),
    ensures
        ({
            let len = buffer.len() as int;
            let new_pos = (pos + 1) % len;
            let after = buffer.update(new_pos, value);
            &&& after[ring_slot(new_pos, 0, len)] == value
            &&& after[ring_slot(new_pos, age, len)] == buffer[ring_slot(pos, age - 1, len)]
        }),
{
    let len = buffer.len() as int;
    let p = (pos + 1) % len;
    vstd::arithmetic::div_mod::lemma_mod_bound(pos + 1, len);
    vstd::arithmetic::div_mod::lemma_small_mod(p as nat, len as nat);
    vstd::arithmetic::div_mod::lemma_sub_mod_noop(p, age, len);
    vstd::arithmetic::div_mod::lemma_sub_mod_noop(pos + 1, age, len);
    assert(pos + 1 - age == pos - (age - 1));
    vstd::arithmetic::div_mod::lemma_mod_bound(p - age, len);
    vstd::arithmetic::div_mod::lemma_mod_bound(pos - (age - 1), len);
    // the slot read at age `age` is not the one just written
    if (p - age) % len == p {
        vstd::arithmetic::div_mod::lemma_fundamental_div_mod(p - age, len);
        let q = (p - age) / len;
        assert(p - age == len * q + p);
        assert(age == -(len * q));
        if q >= 0 {
            assert(len * q >= 0) by (nonlinear_arith)
                requires
                    len > 0,
                    q >= 0,
            ;
        } else {
            assert(len * q <= -len) by (nonlinear_arith)
                requires
                    len > 0,
                    q < 0,
            ;
        }
    }
}

/// The buffer and the write position after adding the values `vs`, in
/// order, to `buffer` with write position `pos`, as `add` leaves them.
pub open spec fn after_adds<T>(buffer: Seq<T>, pos: int, vs: Seq<T>) -> (Seq<T>, int)
    decreases vs.len(),
{
    if vs.len() == 0 {
        (buffer, pos)
    } else {
        let (b, p) = after_adds(buffer, pos, vs.drop_last());
        let np = (p + 1) % (buffer.len() as int);
        (b.update(np, vs.last()), np)
    }
}

/// Adding keeps the length of the buffer, and the write position stays in
/// the buffer, so every further `add` and `get` may be made.
pub proof fn lemma_after_adds_shape<T>(buffer: Seq<T>, pos: int, vs: Seq<T>)
    requires
        buffer.len() > 0,
        0 <= pos < buffer.len(),
    ensures
        after_adds(buffer, pos, vs).0.len() == buffer.len(),
        0 <= after_adds(buffer, pos, vs).1 < buffer.len(),
    decreases vs.len(),
{
    if vs.len() > 0 {
        lemma_after_adds_shape(buffer, pos, vs.drop_last());
        let p = after_adds(buffer, pos, vs.drop_last()).1;
        vstd::arithmetic::div_mod::lemma_mod_bound(p + 1, buffer.len() as int);
    }
}

/// What reads give back after any number of writes: starting with the
/// write position inside the buffer (as after `new`, position 0), after
/// adding the values `vs` (the last one newest), reading age `age` gives
/// the value added `age % len` adds before the newest one, for every age
/// whose remainder is below the number of values added; ages wrap around
/// the length of the buffer.
pub proof fn lemma_adds_then_get<T>(buffer: Seq<T>, pos: int, vs: Seq<T>, age: int)
    requires
        buffer.len() > 0,
        0 <= pos < buffer.len(),
        0 <= age,
        age % (buffer.len() as int) < vs.len(),
    ensures
        ({
            let len = buffer.len() as int;
            let (b, p) = after_adds(buffer, pos, vs);
            b[ring_slot(p, age, len)] == vs[vs.len() - 1 - age % len]
        }),
    decreases vs.len(),
{
    let len = buffer.len() as int;
    let a = age % len;
    let rest = vs.drop_last();
    let (b0, p0) = after_adds(buffer, pos, rest);
    let (b, p) = after_adds(buffer, pos, vs);
    lemma_after_adds_shape(buffer, pos, rest);
    lemma_after_adds_shape(buffer, pos, vs);
    vstd::arithmetic::div_mod::lemma_mod_bound(age, len);
    vstd::arithmetic::div_mod::lemma_sub_mod_noop_right(p, age, len);
    assert(ring_slot(p, age, len) == ring_slot(p, a, len));
    if a == 0 {
        vstd::arithmetic::div_mod::lemma_small_mod(p as nat, len as nat);
    } else {
        lemma_add_then_get(b0, p0, vs.last(), a);
        vstd::arithmetic::div_mod::lemma_small_mod((a - 1) as nat, len as nat);
        lemma_adds_then_get(buffer, pos, rest, a - 1);
        assert(rest[rest.len() - 1 - (a - 1)] == vs[vs.len() - 1 - a]);
    }
}

} // verus!
