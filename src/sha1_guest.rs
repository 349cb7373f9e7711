use vstd::prelude::*;
use crate::driver::Interrupt;
use vstd::arithmetic::div_mod::lemma_mod_multiples_basic;
use sha1::Digest;

verus! {

/// The SHA-1 digest of `data`.
pub uninterp spec fn sha1_of(data: Seq<u8>) -> Seq<u8>;

/// Relies on `sha1::Sha1::digest`: the SHA-1 digest of the input, twenty bytes.
#[verifier::external_body]
fn sha1_digest(data: &[u8]) -> (r: Vec<u8>)
    ensures
        r@ == sha1_of(data@),
        r@.len() == 20,
{
    sha1::Sha1::digest(data).to_vec()
}

/// The number that the bytes `b` write in big-endian order.
pub open spec fn be_value(b: Seq<u8>) -> nat
    decreases b.len(),
{
    if b.len() == 0 {
        0
    } else {
        be_value(b.drop_last()) * 256 + b.last() as nat
    }
}

proof fn lemma_be_value_bound(b: Seq<u8>)
    ensures
        be_value(b) < pow256(b.len()),
    decreases b.len(),
{
    if b.len() > 0 {
        lemma_be_value_bound(b.drop_last());
        let v = be_value(b.drop_last());
        let p = pow256((b.len() - 1) as nat);
        assert(v * 256 + (b.last() as nat) < p * 256) by (nonlinear_arith)
            requires
                v < p,
                b.last() < 256,
        ;
    }
}

/// 256 to the power `n`.
pub open spec fn pow256(n: nat) -> nat
    decreases n,
{
    if n == 0 {
        1
    } else {
        pow256((n - 1) as nat) * 256
    }
}

proof fn lemma_pow256_mono(a: nat, b: nat)
    requires
        a <= b,
    ensures
        pow256(a) <= pow256(b),
    decreases b,
{
    if a < b {
        lemma_pow256_mono(a, (b - 1) as nat);
    }
}

/// The first eight bytes of `digest` read as a big-endian 64-bit number.
pub fn digest_prefix(digest: &[u8]) -> (r: u64)
    requires
        digest@.len() >= 8,
    ensures
        r as nat == be_value(digest@.take(8)),
{
    let mut acc: u64 = 0;
    let mut i: usize = 0;
    while i < 8
        invariant
            i <= 8,
            digest@.len() >= 8,
            acc as nat == be_value(digest@.take(i as int)),
        decreases 8 - i,
    {
        proof {
            lemma_be_value_bound(digest@.take(i as int));
            lemma_pow256_mono(i as nat, 7);
            assert(pow256(7) == 0x100000000000000) by {
                reveal_with_fuel(pow256, 8);
            }
            assert(digest@.take(i + 1).drop_last() =~= digest@.take(i as int));
        }
        acc = acc * 256 + digest[i] as u64;
        i = i + 1;
    }
    acc
}

/// The hashing guest's result for the input `calldata`: the first eight
/// bytes of its SHA-1 digest, read as a big-endian number.
pub fn run(calldata: &[u8]) -> (r: u64)
    ensures
        r as nat == be_value(sha1_of(calldata@).take(8)),
{
    let digest = sha1_digest(calldata);
    digest_prefix(digest.as_slice())
}

/// The hashing guest's panic handler, as the host sees it: the handler spins
/// on a jump to itself forever, and under gas metering each turn costs
/// `jump_cost`, so the run stops once the gas left, `remaining_gas` at entry,
/// is negative. Returns how the run stops and the gas then left: the one
/// value in `[-jump_cost, 0)` that differs from `remaining_gas` by a whole
/// number of turns, or `remaining_gas` itself where it is negative already.
pub fn panic(remaining_gas: i64, jump_cost: u32) -> (r: (Interrupt, i64))
    requires
        jump_cost > 0,
    ensures
        r.0 == Interrupt::NotEnoughGas,
        remaining_gas < 0 ==> r.1 == remaining_gas,
        remaining_gas >= 0 ==> -(jump_cost as int) <= r.1 < 0,
        (remaining_gas - r.1) % (jump_cost as int) == 0,
{
    let mut gas = remaining_gas;
    let ghost mut turns: nat = 0;
    while gas >= 0
        invariant
            jump_cost > 0,
            remaining_gas < 0 ==> gas == remaining_gas,
            remaining_gas >= 0 ==> gas >= -(jump_cost as int),
            remaining_gas - gas == turns * (jump_cost as int),
        decreases gas + jump_cost,
    {
        gas = gas - jump_cost as i64;
        proof {
            turns = turns + 1;
            assert(remaining_gas - gas == turns * (jump_cost as int)) by (nonlinear_arith)
                requires
                    remaining_gas - (gas + jump_cost) == (turns - 1) * (jump_cost as int),
            ;
        }
    }
    proof {
        lemma_mod_multiples_basic(turns as int, jump_cost as int);
    }
    (Interrupt::NotEnoughGas, gas)
}

} // verus!
