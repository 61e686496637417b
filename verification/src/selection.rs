//! The selection of a token: what the greedy choice among logits is, and the course that the
//! selection kernel takes to it.
//!
//! The kernel runs as one workgroup. Each of its lanes scans every 256th token from its own number
//! on; then half of the lanes in turn take over what the other half found, until one is left.

use vstd::prelude::*;

verus! {

/// The lanes of the workgroup of the selection kernel.
pub open spec fn lane_count() -> int {
    256
}

/// The place of a single-precision bit pattern in the total order of IEEE 754.
pub open spec fn total_order_key(bits: u32) -> int {
    if bits < 0x8000_0000 {
        bits as int
    } else {
        0x7fff_ffff - bits
    }
}

/// The key by which the selection kernel orders the bit pattern of a logit: the pattern, with all
/// bits but the sign turned over where the sign is set.
pub open spec fn kernel_key(bits: u32) -> u32 {
    bits ^ (if bits >> 31 == 1 {
        0x7fff_ffff
    } else {
        0u32
    })
}

/// The key of the selection kernel, read as a two's complement number, is the place in the total
/// order.
pub proof fn law_kernel_key_is_the_total_order(bits: u32)
    ensures
        total_order_key(bits) == (if kernel_key(bits) < 0x8000_0000 {
            kernel_key(bits) as int
        } else {
            kernel_key(bits) - 0x1_0000_0000
        }),
{
    assert(bits < 0x8000_0000 ==> bits >> 31 == 0 && bits ^ 0 == bits) by (bit_vector);
    assert(bits >= 0x8000_0000 ==> bits >> 31 == 1 && bits ^ 0x7fff_ffff == 0xffff_ffff - (bits
        - 0x8000_0000)) by (bit_vector);
}

/// Whether one token is chosen before another or is the same: its logit is greater, or it is
/// equal and the token is not behind the other.
pub open spec fn at_least(logits: Seq<u32>, token: int, other: int) -> bool {
    ||| total_order_key(logits[token]) > total_order_key(logits[other])
    ||| total_order_key(logits[token]) == total_order_key(logits[other]) && token <= other
}

/// Whether a token is the greedy choice: no logit is above its own, and every logit before it is
/// below its own.
pub open spec fn greedy(logits: Seq<u32>, token: int) -> bool {
    &&& 0 <= token < logits.len()
    &&& forall|i: int|
        0 <= i < logits.len() ==> total_order_key(#[trigger] logits[i]) <= total_order_key(
            logits[token],
        )
    &&& forall|i: int|
        0 <= i < token ==> total_order_key(#[trigger] logits[i]) < total_order_key(logits[token])
}

/// Whether a candidate is better than what a lane has.
pub open spec fn better(logits: Seq<u32>, candidate: Option<int>, current: Option<int>) -> bool {
    match candidate {
        None => false,
        Some(token) => match current {
            None => true,
            Some(held) => total_order_key(logits[token]) > total_order_key(logits[held]) || (
            total_order_key(logits[token]) == total_order_key(logits[held]) && token < held),
        },
    }
}

/// What a lane has after it was shown a candidate.
pub open spec fn taken(logits: Seq<u32>, current: Option<int>, candidate: Option<int>) -> Option<
    int,
> {
    if better(logits, candidate, current) {
        candidate
    } else {
        current
    }
}

/// The token that a lane looks at in a round of its scan.
pub open spec fn lane_token(lane: int, round: int) -> int {
    lane + 256 * round
}

/// What a lane has after a number of rounds of its scan.
pub open spec fn scanned(logits: Seq<u32>, lane: int, rounds: nat) -> Option<int>
    decreases rounds,
{
    if rounds == 0 {
        None
    } else {
        let before = scanned(logits, lane, (rounds - 1) as nat);
        let token = lane_token(lane, rounds - 1);
        if token >= logits.len() {
            before
        } else {
            taken(logits, before, Some(token))
        }
    }
}

/// What the lanes have once all tokens are scanned.
pub open spec fn all_scanned(logits: Seq<u32>) -> Seq<Option<int>> {
    Seq::new(
        lane_count() as nat,
        |lane: int| scanned(logits, lane, (logits.len() / 256 + 1) as nat),
    )
}

/// What the lanes have after a round of the reduction: each of the first ones was shown what the
/// lane a stride behind it has.
pub open spec fn folded(logits: Seq<u32>, choices: Seq<Option<int>>, stride: int) -> Seq<
    Option<int>,
> {
    Seq::new(
        choices.len(),
        |lane: int|
            if lane < stride {
                taken(logits, choices[lane], choices[lane + stride])
            } else {
                choices[lane]
            },
    )
}

/// What the lanes have after the rounds of the reduction from one stride on.
pub open spec fn reduced(logits: Seq<u32>, choices: Seq<Option<int>>, stride: nat) -> Seq<
    Option<int>,
>
    decreases stride,
{
    if stride == 0 {
        choices
    } else {
        reduced(logits, folded(logits, choices, stride as int), stride / 2)
    }
}

/// The token that the selection kernel chooses.
pub open spec fn kernel_choice(logits: Seq<u32>) -> int {
    reduced(logits, all_scanned(logits), 128)[0]->0
}

/// Whether a lane has nothing, or one of the tokens.
spec fn holds_token(logits: Seq<u32>, choice: Option<int>) -> bool {
    choice matches Some(token) ==> 0 <= token < logits.len()
}

/// Whether a lane has a token that is chosen before another one or is the same.
spec fn covers(logits: Seq<u32>, choice: Option<int>, other: int) -> bool {
    choice matches Some(token) && at_least(logits, token, other)
}

proof fn lemma_scan_covers(logits: Seq<u32>, lane: int, rounds: nat)
    requires
        0 <= lane < lane_count(),
    ensures
        holds_token(logits, scanned(logits, lane, rounds)),
        forall|round: int|
            0 <= round < rounds && lane_token(lane, round) < logits.len() ==> covers(
                logits,
                scanned(logits, lane, rounds),
                #[trigger] lane_token(lane, round),
            ),
    decreases rounds,
{
    if rounds > 0 {
        lemma_scan_covers(logits, lane, (rounds - 1) as nat);
        let before = scanned(logits, lane, (rounds - 1) as nat);
        assert forall|round: int|
            0 <= round < rounds && lane_token(lane, round) < logits.len() implies covers(
            logits,
            scanned(logits, lane, rounds),
            #[trigger] lane_token(lane, round),
        ) by {
            if round < rounds - 1 {
                assert(covers(logits, before, lane_token(lane, round)));
            }
        }
    }
}

/// Whether one of the first lanes covers a token.
spec fn covered(logits: Seq<u32>, choices: Seq<Option<int>>, width: int, other: int) -> bool {
    exists|lane: int| 0 <= lane < width && covers(logits, #[trigger] choices[lane], other)
}

/// Whether the first lanes have tokens of their own, and one of them covers each token.
spec fn lanes_cover(logits: Seq<u32>, choices: Seq<Option<int>>, width: int) -> bool {
    &&& 0 < width <= choices.len()
    &&& forall|lane: int| 0 <= lane < width ==> holds_token(logits, #[trigger] choices[lane])
    &&& forall|other: int|
        0 <= other < logits.len() ==> #[trigger] covered(logits, choices, width, other)
}

proof fn lemma_fold_covers(logits: Seq<u32>, choices: Seq<Option<int>>, stride: int)
    requires
        stride > 0,
        lanes_cover(logits, choices, 2 * stride),
    ensures
        lanes_cover(logits, folded(logits, choices, stride), stride),
{
    let after = folded(logits, choices, stride);
    assert forall|lane: int| 0 <= lane < stride implies holds_token(
        logits,
        #[trigger] after[lane],
    ) by {
        assert(holds_token(logits, choices[lane]));
        assert(holds_token(logits, choices[lane + stride]));
    }
    assert forall|other: int| 0 <= other < logits.len() implies #[trigger] covered(
        logits,
        after,
        stride,
        other,
    ) by {
        assert(covered(logits, choices, 2 * stride, other));
        let lane = choose|lane: int|
            0 <= lane < 2 * stride && covers(logits, #[trigger] choices[lane], other);
        if lane < stride {
            assert(covers(logits, after[lane], other));
        } else {
            assert(choices[lane - stride + stride] == choices[lane]);
            assert(covers(logits, after[lane - stride], other));
        }
    }
}

proof fn lemma_reduction_covers(logits: Seq<u32>, choices: Seq<Option<int>>)
    requires
        lanes_cover(logits, choices, 256),
    ensures
        lanes_cover(logits, reduced(logits, choices, 128), 1),
{
    reveal_with_fuel(reduced, 9);
    let c1 = folded(logits, choices, 128);
    lemma_fold_covers(logits, choices, 128);
    let c2 = folded(logits, c1, 64);
    lemma_fold_covers(logits, c1, 64);
    let c3 = folded(logits, c2, 32);
    lemma_fold_covers(logits, c2, 32);
    let c4 = folded(logits, c3, 16);
    lemma_fold_covers(logits, c3, 16);
    let c5 = folded(logits, c4, 8);
    lemma_fold_covers(logits, c4, 8);
    let c6 = folded(logits, c5, 4);
    lemma_fold_covers(logits, c5, 4);
    let c7 = folded(logits, c6, 2);
    lemma_fold_covers(logits, c6, 2);
    lemma_fold_covers(logits, c7, 1);
}

/// The course of the selection kernel leads to the greedy choice, ties going to the lowest token,
/// whatever the logits are.
pub proof fn law_kernel_choice_is_greedy(logits: Seq<u32>)
    requires
        logits.len() > 0,
    ensures
        greedy(logits, kernel_choice(logits)),
{
    let choices = all_scanned(logits);
    let rounds = (logits.len() / 256 + 1) as nat;
    assert forall|lane: int| 0 <= lane < 256 implies holds_token(
        logits,
        #[trigger] choices[lane],
    ) by {
        lemma_scan_covers(logits, lane, rounds);
    }
    assert forall|other: int| 0 <= other < logits.len() implies #[trigger] covered(
        logits,
        choices,
        256,
        other,
    ) by {
        let lane = other % 256;
        let round = other / 256;
        lemma_scan_covers(logits, lane, rounds);
        assert(lane_token(lane, round) == other);
        assert(covers(logits, choices[lane], other));
    }
    lemma_reduction_covers(logits, choices);
    let last = reduced(logits, choices, 128);
    let token = kernel_choice(logits);
    assert forall|other: int| 0 <= other < logits.len() implies #[trigger] at_least(
        logits,
        token,
        other,
    ) by {
        assert(covered(logits, last, 1, other));
        let lane = choose|lane: int| 0 <= lane < 1 && covers(logits, #[trigger] last[lane], other);
        assert(lane == 0);
    }
    assert(at_least(logits, token, 0));
    assert(holds_token(logits, last[0]));
    assert(covers(logits, last[0], 0)) by {
        assert(covered(logits, last, 1, 0));
        let lane = choose|lane: int| 0 <= lane < 1 && covers(logits, #[trigger] last[lane], 0);
        assert(lane == 0);
    }
    assert forall|i: int| 0 <= i < logits.len() implies total_order_key(#[trigger] logits[i])
        <= total_order_key(logits[token]) by {
        assert(at_least(logits, token, i));
    }
    assert forall|i: int| 0 <= i < token implies total_order_key(#[trigger] logits[i])
        < total_order_key(logits[token]) by {
        assert(at_least(logits, token, i));
    }
}

/// There is one greedy choice at most.
pub proof fn law_greedy_choice_is_unique(logits: Seq<u32>, token: int, other: int)
    requires
        greedy(logits, token),
        greedy(logits, other),
    ensures
        token == other,
{
    assert(total_order_key(logits[token]) <= total_order_key(logits[other]));
    assert(total_order_key(logits[other]) <= total_order_key(logits[token]));
}

} // verus!
