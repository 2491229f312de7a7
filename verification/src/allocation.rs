//! The verifiable computation: does a portfolio match the target
//! allocation?
//!
//! The targets are part of the computation's identity. They are constants
//! here and cannot be supplied with a request: changing one changes the
//! program that is proved, and with it the verifying key.

use crate::commitment::{
    decode_inverts_encode, decoding, encode, encoding, DecodeError, PublicCommitment,
};
use vstd::prelude::*;

verus! {

/// Whole units of the first asset that the allocation asks for.
pub const TARGET_WBTC: u64 = 10;

/// Whole units of the second asset that the allocation asks for.
pub const TARGET_ETH: u64 = 30;

/// Whole units of the third asset that the allocation asks for.
pub const TARGET_DOGE: u64 = 60;

/// The four numbers that the computation reads, in the order in which it
/// reads them.
#[derive(Clone, Copy, Debug, PartialEq, Eq, Structural)]
pub struct ProofInputs {
    pub agent_id: u64,
    pub wbtc: u64,
    pub eth: u64,
    pub doge: u64,
}

/// All three balances equal their targets, with no tolerance.
pub open spec fn meets_target(wbtc: u64, eth: u64, doge: u64) -> bool {
    wbtc == TARGET_WBTC && eth == TARGET_ETH && doge == TARGET_DOGE
}

/// The commitment that the computation makes for `inputs`: the inputs as
/// they came, and 1 or 0 for whether the balances meet the target.
pub open spec fn commitment_of(inputs: ProofInputs) -> PublicCommitment {
    PublicCommitment {
        agent_id: inputs.agent_id,
        wbtc: inputs.wbtc,
        eth: inputs.eth,
        doge: inputs.doge,
        is_valid: if meets_target(inputs.wbtc, inputs.eth, inputs.doge) {
            1
        } else {
            0
        },
    }
}

/// Compares each balance with its target and builds the commitment.
pub fn check_allocation(inputs: &ProofInputs) -> (c: PublicCommitment)
    ensures
        c == commitment_of(*inputs),
{
    let matches = inputs.wbtc == TARGET_WBTC && inputs.eth == TARGET_ETH && inputs.doge
        == TARGET_DOGE;
    PublicCommitment {
        agent_id: inputs.agent_id,
        wbtc: inputs.wbtc,
        eth: inputs.eth,
        doge: inputs.doge,
        is_valid: if matches {
            1
        } else {
            0
        },
    }
}

/// The computation's only output: the canonical form of its commitment.
pub fn commit(inputs: &ProofInputs) -> (bytes: Vec<u8>)
    ensures
        bytes@ == encoding(commitment_of(*inputs)),
{
    let c = check_allocation(inputs);
    encode(&c)
}

/// The flag is 1 exactly when the three balances are 10, 30 and 60, and 0
/// otherwise; the commitment carries the balances that were checked, not the
/// targets.
pub proof fn validity_is_exact_match(inputs: ProofInputs)
    ensures
        commitment_of(inputs).is_valid == 1 <==> inputs.wbtc == 10 && inputs.eth == 30
            && inputs.doge == 60,
        commitment_of(inputs).is_valid == 0 <==> inputs.wbtc != 10 || inputs.eth != 30
            || inputs.doge != 60,
        commitment_of(inputs).wf(),
        commitment_of(inputs).agent_id == inputs.agent_id,
        commitment_of(inputs).wbtc == inputs.wbtc,
        commitment_of(inputs).eth == inputs.eth,
        commitment_of(inputs).doge == inputs.doge,
{
}

/// What the computation emits always decodes, and to the commitment that
/// it made.
pub proof fn output_decodes(inputs: ProofInputs)
    ensures
        decoding(encoding(commitment_of(inputs))) == Ok::<PublicCommitment, DecodeError>(
            commitment_of(inputs),
        ),
{
    decode_inverts_encode(commitment_of(inputs));
}

} // verus!
