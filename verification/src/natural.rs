//! Natural numbers of any size, as far as comparing powers needs them.
use vstd::prelude::*;

verus! {

/// One more than the largest limb.
pub open spec fn limb_base() -> int {
    0x1_0000_0000
}

/// The limb at `i`; limbs past the end count as zero.
pub open spec fn limb_at(limbs: Seq<u32>, i: int) -> int {
    if 0 <= i < limbs.len() {
        limbs[i] as int
    } else {
        0
    }
}

/// The number that the lowest `count` limbs stand for, least significant first.
pub open spec fn limbs_value(limbs: Seq<u32>, count: nat) -> int
    decreases count,
{
    if count == 0 {
        0
    } else {
        limbs_value(limbs, (count - 1) as nat) + limb_at(limbs, count - 1)
            * vstd::arithmetic::power::pow(limb_base(), (count - 1) as nat)
    }
}

/// A natural number.
pub struct Natural {
    limbs: Vec<u32>,
}

impl View for Natural {
    type V = int;

    closed spec fn view(&self) -> int {
        limbs_value(self.limbs@, self.limbs@.len())
    }
}

/// The lowest limbs depend on nothing above them.
proof fn lemma_value_of_prefix(a: Seq<u32>, b: Seq<u32>, count: nat)
    requires
        forall|i: int| 0 <= i < count ==> limb_at(a, i) == limb_at(b, i),
    ensures
        limbs_value(a, count) == limbs_value(b, count),
    decreases count,
{
    if count > 0 {
        lemma_value_of_prefix(a, b, (count - 1) as nat);
        assert(limb_at(a, count - 1) == limb_at(b, count - 1));
    }
}

/// Zero limbs above the top add nothing.
proof fn lemma_value_past_end(limbs: Seq<u32>, count: nat)
    requires
        limbs.len() <= count,
    ensures
        limbs_value(limbs, count) == limbs_value(limbs, limbs.len()),
    decreases count,
{
    if limbs.len() < count {
        lemma_value_past_end(limbs, (count - 1) as nat);
        let p = vstd::arithmetic::power::pow(limb_base(), (count - 1) as nat);
        assert(limb_at(limbs, count - 1) * p == 0) by (nonlinear_arith)
            requires
                limb_at(limbs, count - 1) == 0,
        ;
    }
}

/// `count` limbs hold less than the base to the power of `count`.
proof fn lemma_value_bounds(limbs: Seq<u32>, count: nat)
    ensures
        0 <= limbs_value(limbs, count) < vstd::arithmetic::power::pow(limb_base(), count),
    decreases count,
{
    reveal(vstd::arithmetic::power::pow);
    if count > 0 {
        lemma_value_bounds(limbs, (count - 1) as nat);
        let p = vstd::arithmetic::power::pow(limb_base(), (count - 1) as nat);
        let l = limb_at(limbs, count - 1);
        assert(0 <= l * p && l * p + p <= limb_base() * p) by (nonlinear_arith)
            requires
                0 <= l,
                l + 1 <= limb_base(),
                0 < p,
        ;
    }
}

impl Natural {
    /// The number one.
    pub fn one() -> (r: Natural)
        ensures
            r@ == 1,
    {
        let limbs: Vec<u32> = vec![1u32];
        proof {
            reveal_with_fuel(limbs_value, 2);
            vstd::arithmetic::power::lemma_pow0(limb_base());
        }
        Natural { limbs }
    }

    /// Multiplies by `factor`.
    pub fn scale(&mut self, factor: u32)
        ensures
            final(self)@ == old(self)@ * factor,
    {
        let ghost start = self.limbs@;
        let n: usize = self.limbs.len();
        let mut carry: u64 = 0;
        let mut i: usize = 0;
        proof {
            assert(limbs_value(start, 0) * factor == 0) by (nonlinear_arith)
                requires
                    limbs_value(start, 0) == 0,
            ;
            vstd::arithmetic::power::lemma_pow0(limb_base());
        }
        while i < n
            invariant
                i <= n,
                n == start.len(),
                self.limbs@.len() == n,
                carry < limb_base(),
                forall|j: int| i <= j < n ==> self.limbs@[j] == start[j],
                limbs_value(self.limbs@, i as nat) + carry * vstd::arithmetic::power::pow(
                    limb_base(),
                    i as nat,
                ) == limbs_value(start, i as nat) * factor,
            decreases n - i,
        {
            let ghost before = self.limbs@;
            let ghost c0 = carry as int;
            let limb: u32 = self.limbs[i];
            proof {
                assert(limb as int * factor as int <= 0xffff_ffff * 0xffff_ffff) by (nonlinear_arith)
                    requires
                        limb <= 0xffff_ffff,
                        factor <= 0xffff_ffff,
                ;
            }
            let total: u64 = limb as u64 * factor as u64 + carry;
            let low: u32 = (total % 0x1_0000_0000) as u32;
            carry = total / 0x1_0000_0000;
            self.limbs.set(i, low);
            proof {
                let p = vstd::arithmetic::power::pow(limb_base(), i as nat);
                let q = vstd::arithmetic::power::pow(limb_base(), (i + 1) as nat);
                assert(q == limb_base() * p) by {
                    reveal(vstd::arithmetic::power::pow);
                }
                lemma_value_of_prefix(before, self.limbs@, i as nat);
                assert(limb_at(self.limbs@, i as int) == low);
                assert(limb_at(start, i as int) == limb);
                let v = limbs_value(start, i as nat);
                let w = limbs_value(before, i as nat);
                let f = factor as int;
                assert(w + low * p + carry * q == (v + limb * p) * f) by (nonlinear_arith)
                    requires
                        q == limb_base() * p,
                        limb_base() == 0x1_0000_0000,
                        w + c0 * p == v * f,
                        low + carry * 0x1_0000_0000 == limb * f + c0,
                ;
            }
            i = i + 1;
        }
        if carry != 0 {
            let ghost body = self.limbs@;
            self.limbs.push(carry as u32);
            proof {
                lemma_value_of_prefix(body, self.limbs@, n as nat);
            }
        }
    }

    /// Whether this number is at most `other`.
    pub fn at_most(&self, other: &Natural) -> (r: bool)
        ensures
            r == (self@ <= other@),
    {
        let top: usize = if self.limbs.len() < other.limbs.len() {
            other.limbs.len()
        } else {
            self.limbs.len()
        };
        let ghost a = self.limbs@;
        let ghost b = other.limbs@;
        proof {
            lemma_value_past_end(a, top as nat);
            lemma_value_past_end(b, top as nat);
        }
        let mut i: usize = top;
        while i > 0
            invariant
                i <= top,
                a == self.limbs@,
                b == other.limbs@,
                self@ - other@ == limbs_value(a, i as nat) - limbs_value(b, i as nat),
            decreases i,
        {
            i = i - 1;
            let x: u32 = if i < self.limbs.len() {
                self.limbs[i]
            } else {
                0
            };
            let y: u32 = if i < other.limbs.len() {
                other.limbs[i]
            } else {
                0
            };
            proof {
                assert(x == limb_at(a, i as int) && y == limb_at(b, i as int));
                lemma_value_bounds(a, i as nat);
                lemma_value_bounds(b, i as nat);
                let p = vstd::arithmetic::power::pow(limb_base(), i as nat);
                assert(x < y ==> x * p + p <= y * p) by (nonlinear_arith)
                    requires
                        0 < p,
                ;
                assert(y < x ==> y * p + p <= x * p) by (nonlinear_arith)
                    requires
                        0 < p,
                ;
            }
            if x < y {
                return true;
            }
            if y < x {
                return false;
            }
        }
        true
    }
}

} // verus!
