//! The funding accumulator's correctness argument.
//!
//! The engine never replays settlement rounds: a position's funding since
//! any historical checkpoint is one subtraction against the cumulative
//! premium-fraction list, and moving the checkpoint to the latest entry
//! collapses all intervening rounds. The lemmas here prove that this
//! shortcut loses nothing.

use vstd::prelude::*;

verus! {

use crate::integer::{Integer, div_trunc};
use crate::margin::spec_funding_payment;

/// The funding accrued by replaying settlement rounds one at a time: each
/// round `i` contributes `(c_i - c_(i-1)) * size`, where `c` is the
/// cumulative premium-fraction list.
pub open spec fn replayed_payment(cs: Seq<int>, size: int) -> int
    decreases cs.len(),
{
    if cs.len() <= 1 {
        0
    } else {
        replayed_payment(cs.drop_last(), size) + (cs[cs.len() - 1] - cs[cs.len() - 2]) * size
    }
}

/// Funding reduction-invariance, telescoped: for any cumulative list and
/// position size, the sum of the per-round payments equals the one-step
/// payment `(cum_now - cum_first) * size` computed from the ends of the
/// list alone.
pub proof fn lemma_replayed_payment_telescopes(cs: Seq<int>, size: int)
    requires
        cs.len() >= 1,
    ensures
        replayed_payment(cs, size) == (cs[cs.len() - 1] - cs[0]) * size,
    decreases cs.len(),
{
    if cs.len() == 1 {
        assert((cs[0] - cs[0]) * size == 0) by (nonlinear_arith);
    } else {
        let shorter = cs.drop_last();
        lemma_replayed_payment_telescopes(shorter, size);
        assert(shorter[shorter.len() - 1] == cs[cs.len() - 2]);
        assert(shorter[0] == cs[0]);
        assert((cs[cs.len() - 2] - cs[0]) * size + (cs[cs.len() - 1] - cs[cs.len() - 2]) * size
            == (cs[cs.len() - 1] - cs[0]) * size) by (nonlinear_arith);
    }
}

/// Funding reduction-invariance for the engine's own artifacts: take any
/// market's cumulative premium-fraction list and any position whose
/// checkpoint was set at round `k`. The funding payment the margin
/// calculator charges in one step equals the total obtained by replaying
/// every round after `k` individually, with the single division by the
/// scale applied to that total.
pub proof fn lemma_funding_payment_collapses_rounds(
    cs: Seq<Integer>,
    k: int,
    size: Integer,
    decimals: u128,
)
    requires
        0 <= k < cs.len(),
    ensures
        spec_funding_payment(cs[cs.len() - 1], cs[k], size, decimals) == div_trunc(
            replayed_payment(cs.subrange(k, cs.len() as int).map_values(|c: Integer| c.as_int()), size.as_int()),
            decimals as int,
        ),
{
    let tail = cs.subrange(k, cs.len() as int).map_values(|c: Integer| c.as_int());
    assert(tail.len() == cs.len() - k);
    assert(tail[0] == cs[k].as_int());
    assert(tail[tail.len() - 1] == cs[cs.len() - 1].as_int());
    lemma_replayed_payment_telescopes(tail, size.as_int());
}

} // verus!
