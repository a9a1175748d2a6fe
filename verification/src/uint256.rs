use vstd::prelude::*;
use vstd::arithmetic::div_mod::{
    lemma_add_mod_noop, lemma_fundamental_div_mod, lemma_mod_bound, lemma_mul_mod_noop_left,
};

verus! {

/// An unsigned 256-bit value held as four 64-bit limbs, least significant
/// first.  Raw oracle randomness arrives in this shape; the protocol never
/// needs full 256-bit arithmetic on it, only the remainder modulo a small
/// modulus, which `reduce` computes and proves exact.
#[derive(Clone, Copy, Debug, PartialEq, Eq, Structural)]
pub struct Uint256 {
    pub limb0: u64,
    pub limb1: u64,
    pub limb2: u64,
    pub limb3: u64,
}

impl Uint256 {
    /// The mathematical value of the four limbs.
    pub open spec fn value(self) -> int {
        ((self.limb3 * 0x1_0000_0000_0000_0000 + self.limb2) * 0x1_0000_0000_0000_0000
            + self.limb1) * 0x1_0000_0000_0000_0000 + self.limb0
    }

    /// Embed a 128-bit value.
    pub fn from_u128(x: u128) -> (r: Uint256)
        ensures
            r.value() == x,
    {
        proof {
            lemma_fundamental_div_mod(x as int, 0x1_0000_0000_0000_0000);
            lemma_mod_bound(x as int, 0x1_0000_0000_0000_0000);
        }
        Uint256 {
            limb0: (x % 0x1_0000_0000_0000_0000) as u64,
            limb1: (x / 0x1_0000_0000_0000_0000) as u64,
            limb2: 0,
            limb3: 0,
        }
    }

    /// The remainder of this value modulo `m`, for any modulus up to 2^96.
    /// The value is folded in 32-bit chunks from the most significant end,
    /// so no intermediate product leaves 128 bits.
    pub fn reduce(&self, m: u128) -> (r: u128)
        requires
            0 < m <= 0x1_0000_0000_0000_0000_0000_0000u128,
        ensures
            r == self.value() % (m as int),
            r < m,
    {
        let (h3, l3) = split32(self.limb3);
        let (h2, l2) = split32(self.limb2);
        let (h1, l1) = split32(self.limb1);
        let (h0, l0) = split32(self.limb0);

        let ghost b: int = 0x1_0000_0000;
        let ghost pre1: int = h3 as int;
        let ghost pre2: int = pre1 * b + l3;
        let ghost pre3: int = pre2 * b + h2;
        let ghost pre4: int = pre3 * b + l2;
        let ghost pre5: int = pre4 * b + h1;
        let ghost pre6: int = pre5 * b + l1;
        let ghost pre7: int = pre6 * b + h0;
        let ghost pre8: int = pre7 * b + l0;

        proof {
            lemma_mod_bound(pre1, m as int);
        }
        let r1 = fold_chunk(0, h3, m);
        assert(r1 == pre1 % (m as int)) by {
            lemma_step_lift(0, 0, h3 as int, m as int);
        }
        let r2 = fold_chunk(r1, l3, m);
        proof {
            lemma_step_lift(pre1, r1 as int, l3 as int, m as int);
        }
        let r3 = fold_chunk(r2, h2, m);
        proof {
            lemma_step_lift(pre2, r2 as int, h2 as int, m as int);
        }
        let r4 = fold_chunk(r3, l2, m);
        proof {
            lemma_step_lift(pre3, r3 as int, l2 as int, m as int);
        }
        let r5 = fold_chunk(r4, h1, m);
        proof {
            lemma_step_lift(pre4, r4 as int, h1 as int, m as int);
        }
        let r6 = fold_chunk(r5, l1, m);
        proof {
            lemma_step_lift(pre5, r5 as int, l1 as int, m as int);
        }
        let r7 = fold_chunk(r6, h0, m);
        proof {
            lemma_step_lift(pre6, r6 as int, h0 as int, m as int);
        }
        let r8 = fold_chunk(r7, l0, m);
        proof {
            lemma_step_lift(pre7, r7 as int, l0 as int, m as int);
            assert(pre8 == self.value());
        }
        r8
    }
}

/// Split a 64-bit limb into its high and low 32-bit halves.
fn split32(w: u64) -> (r: (u64, u64))
    ensures
        w == r.0 * 0x1_0000_0000 + r.1,
        r.0 < 0x1_0000_0000,
        r.1 < 0x1_0000_0000,
{
    proof {
        lemma_fundamental_div_mod(w as int, 0x1_0000_0000);
        lemma_mod_bound(w as int, 0x1_0000_0000);
    }
    (w / 0x1_0000_0000, w % 0x1_0000_0000)
}

/// One Horner step of the reduction: shift the accumulator left by 32 bits,
/// bring in the next chunk, and take the remainder.
fn fold_chunk(acc: u128, chunk: u64, m: u128) -> (r: u128)
    requires
        0 < m <= 0x1_0000_0000_0000_0000_0000_0000u128,
        acc < m,
        chunk < 0x1_0000_0000,
    ensures
        r == (acc * 0x1_0000_0000 + chunk) % (m as int),
        r < m,
{
    let t: u128 = acc * 0x1_0000_0000u128 + (chunk as u128);
    proof {
        lemma_mod_bound(t as int, m as int);
    }
    t % m
}

/// Lifting one Horner step from the running remainder to the full prefix:
/// folding a chunk into `p % m` leaves the same remainder as folding it into
/// `p` itself.
proof fn lemma_step_lift(p: int, r: int, c: int, m: int)
    requires
        0 < m,
        r == p % m,
    ensures
        (r * 0x1_0000_0000 + c) % m == (p * 0x1_0000_0000 + c) % m,
{
    lemma_mul_mod_noop_left(p, 0x1_0000_0000, m);
    lemma_add_mod_noop(r * 0x1_0000_0000, c, m);
    lemma_add_mod_noop(p * 0x1_0000_0000, c, m);
}

} // verus!
