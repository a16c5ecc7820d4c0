//! A ring buffer: writes advance around a buffer whose length is a power
//! of two, and reads look back from the last write.
use vstd::prelude::*;

use vstd::arithmetic::power2::{is_pow2, is_pow2_exists, pow2};

verus! {

/// Whether `n` is a power of two.
pub fn is_power_of_2(n: usize) -> (r: bool)
    ensures
        r == is_pow2_exists(n as int),
    decreases n,
{
    proof {
        vstd::arithmetic::power2::is_pow2_equiv(n as int);
        reveal(is_pow2);
    }
    if n == 1 {
        return true;
    } else if n % 2 != 0 || n == 0 {
        return false;
    }
    let r = is_power_of_2(n / 2);
    proof {
        vstd::arithmetic::power2::is_pow2_equiv((n / 2) as int);
    }
    r
}

/// A ring buffer over a buffer whose length is a power of two.
pub struct RingBuffer<T> {
    buffer: Vec<T>,
    mask: usize,
    write_index: usize,
}

/// The exponent of a power of two that fits in a `usize` is below the
/// width of a `usize`.
proof fn lemma_exponent_fits(k: nat)
    requires
        pow2(k) <= usize::MAX,
    ensures
        k < usize::BITS,
{
    vstd::arithmetic::power2::lemma2_to64();
    if k > usize::BITS {
        vstd::arithmetic::power2::lemma_pow2_strictly_increases(usize::BITS as nat, k);
    }
}

/// Reducing `w - r` with wrap-around, then keeping the bits below `2^k`,
/// is reducing the plain difference modulo `2^k`.
proof fn lemma_wrapped_index(w: usize, r: usize, k: nat)
    requires
        pow2(k) <= usize::MAX,
    ensures
        (w.wrapping_sub(r) & ((pow2(k) - 1) as usize)) as int == (w - r) % (pow2(k) as int),
{
    lemma_exponent_fits(k);
    let d = vstd::wrapping::usize_specs::wrapping_sub(w, r);
    vstd::bits::lemma_usize_low_bits_mask_is_mod(d, k);
    vstd::arithmetic::power2::lemma_pow2_pos(k);
    let p = pow2(k) as int;
    if w - r < 0 {
        let rest = (usize::BITS - k) as nat;
        vstd::arithmetic::power2::lemma_pow2_adds(k, rest);
        vstd::arithmetic::power2::lemma2_to64();
        assert(pow2(usize::BITS as nat) == usize::MAX + 1);
        assert(d as int == w - r + p * pow2(rest));
        vstd::arithmetic::div_mod::lemma_mod_multiples_vanish(pow2(rest) as int, w - r, p);
    }
}

impl<T> RingBuffer<T> {
    /// The slots of the buffer.
    pub closed spec fn contents(&self) -> Seq<T> {
        self.buffer@
    }

    /// The slot last written.
    pub closed spec fn position(&self) -> nat {
        self.write_index as nat
    }

    /// The buffer's length is a power of two, and the last write lies within it.
    pub closed spec fn wf(&self) -> bool {
        &&& is_pow2_exists(self.buffer@.len() as int)
        &&& self.mask == self.buffer@.len() - 1
        &&& self.write_index < self.buffer@.len()
    }

    /// The exponent of the buffer's length.
    closed spec fn exponent(&self) -> nat {
        choose|k: nat| vstd::arithmetic::power::pow(2, k) == self.buffer@.len() as int
    }

    proof fn lemma_exponent(&self)
        requires
            self.wf(),
            self.buffer@.len() <= usize::MAX,
        ensures
            pow2(self.exponent()) == self.buffer@.len(),
            pow2(self.exponent()) <= usize::MAX,
            self.mask == (pow2(self.exponent()) - 1) as usize,
    {
        vstd::arithmetic::power2::lemma_pow2(self.exponent());
    }

    /// The slot `relative` writes back from the last one.
    pub open spec fn slot(&self, relative: int) -> int {
        (self.position() - relative) % (self.contents().len() as int)
    }

    /// The value `relative` writes back from the last one.
    pub open spec fn looked_back(&self, relative: int) -> T {
        self.contents()[self.slot(relative)]
    }

    /// `next` is this buffer after writing `value`: the position moves on by
    /// one around the buffer and the value lands there.
    pub open spec fn written(&self, next: &Self, value: T) -> bool {
        &&& next.position() == (self.position() + 1) % self.contents().len()
        &&& next.contents() == self.contents().update(next.position() as int, value)
    }

    /// A ring buffer over the given buffer, which must have a power of two
    /// as its length; writing starts past the first slot.
    pub fn from(buffer: Vec<T>) -> (r: Self)
        requires
            is_pow2_exists(buffer@.len() as int),
        ensures
            r.wf(),
            r.contents() == buffer@,
            r.position() == 0,
    {
        proof {
            let k = choose|k: nat| vstd::arithmetic::power::pow(2, k) == buffer@.len();
            vstd::arithmetic::power2::lemma_pow2(k);
            vstd::arithmetic::power2::lemma_pow2_pos(k);
        }
        let mask = buffer.len() - 1;
        Self { buffer, mask, write_index: 0 }
    }

    /// Advances to the next slot, wrapping at the end, and writes the value there.
    pub fn write(&mut self, value: T)
        requires
            old(self).wf(),
        ensures
            final(self).wf(),
            old(self).written(&*final(self), value),
    {
        let len = self.buffer.len();
        proof {
            self.lemma_exponent();
            lemma_exponent_fits(self.exponent());
        }
        let after = self.write_index + 1;
        proof {
            vstd::bits::lemma_usize_low_bits_mask_is_mod(after, self.exponent());
        }
        let next = after & self.mask;
        self.write_index = next;
        self.buffer.set(next, value);
    }
}

impl<T: Copy> RingBuffer<T> {
    /// The value written `relative_index` writes before the last one,
    /// counting around the buffer.
    pub fn peek(&self, relative_index: usize) -> (r: T)
        requires
            self.wf(),
        ensures
            0 <= self.slot(relative_index as int) < self.contents().len(),
            r == self.looked_back(relative_index as int),
    {
        let len = self.buffer.len();
        proof {
            self.lemma_exponent();
            lemma_wrapped_index(self.write_index, relative_index, self.exponent());
        }
        let index = self.write_index.wrapping_sub(relative_index) & self.mask;
        self.buffer[index]
    }

    /// Writes the value into every slot.
    pub fn reset(&mut self, value: T)
        requires
            old(self).wf(),
        ensures
            final(self).wf(),
            final(self).position() == old(self).position(),
            final(self).contents() == Seq::new(old(self).contents().len(), |i: int| value),
    {
        let len = self.buffer.len();
        let mut i: usize = 0;
        while i < len
            invariant
                self.wf(),
                self.position() == old(self).position(),
                len == self.buffer@.len() == old(self).contents().len(),
                i <= len,
                forall|j: int| 0 <= j < i ==> self.buffer@[j] == value,
            decreases len - i,
        {
            self.buffer.set(i, value);
            i += 1;
        }
        assert(self.contents() =~= Seq::new(old(self).contents().len(), |i: int| value));
    }
}

/// After a write, the newest value is read back at distance zero, and
/// whatever was `k` writes back is now `k + 1` writes back, as long as the
/// buffer has not come around to it.
pub proof fn lemma_write_then_look_back<T>(
    before: RingBuffer<T>,
    after: RingBuffer<T>,
    value: T,
    k: int,
)
    requires
        before.wf(),
        before.written(&after, value),
        0 <= k,
        k + 1 < before.contents().len(),
    ensures
        after.looked_back(0) == value,
        after.looked_back(k + 1) == before.looked_back(k),
{
    let n = before.contents().len() as int;
    let p = before.position() as int;
    if p + 1 < n {
        vstd::arithmetic::div_mod::lemma_small_mod((p + 1) as nat, n as nat);
        assert(after.position() == p + 1);
    } else {
        assert(after.position() == 0) by {
            vstd::arithmetic::div_mod::lemma_mod_self_0(n);
        }
    }
    vstd::arithmetic::div_mod::lemma_small_mod(after.position(), n as nat);
    assert(after.slot(0) == after.position());
    assert(after.slot(k + 1) == before.slot(k)) by {
        if p + 1 < n {
        } else {
            vstd::arithmetic::div_mod::lemma_mod_multiples_vanish(1, -k - 1, n);
            vstd::arithmetic::div_mod::lemma_mod_multiples_vanish(1, p - k - n, n);
        }
    }
    assert(before.slot(k) != after.position()) by {
        if p - k >= 0 {
            vstd::arithmetic::div_mod::lemma_small_mod((p - k) as nat, n as nat);
        } else {
            vstd::arithmetic::div_mod::lemma_mod_multiples_vanish(1, p - k, n);
            vstd::arithmetic::div_mod::lemma_small_mod((p - k + n) as nat, n as nat);
        }
    }
}

} // verus!
