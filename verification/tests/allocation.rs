use bucket_proof::allocation::{
    check_allocation, commit, ProofInputs, TARGET_DOGE, TARGET_ETH, TARGET_WBTC,
};
use bucket_proof::commitment::{decode, encode, PublicCommitment};

fn inputs(wbtc: u64, eth: u64, doge: u64) -> ProofInputs {
    ProofInputs { agent_id: 77, wbtc, eth, doge }
}

#[test]
fn targets_are_ten_thirty_sixty() {
    assert_eq!((TARGET_WBTC, TARGET_ETH, TARGET_DOGE), (10, 30, 60));
}

#[test]
fn the_exact_target_is_valid() {
    assert_eq!(
        check_allocation(&inputs(10, 30, 60)),
        PublicCommitment { agent_id: 77, wbtc: 10, eth: 30, doge: 60, is_valid: 1 }
    );
}

#[test]
fn any_single_mismatch_is_invalid() {
    for (wbtc, eth, doge) in [
        (11, 30, 60),
        (9, 30, 60),
        (10, 31, 60),
        (10, 29, 60),
        (10, 30, 61),
        (10, 30, 59),
        (0, 30, 60),
        (10, 0, 60),
        (10, 30, 0),
        (u64::MAX, 30, 60),
    ] {
        let c = check_allocation(&inputs(wbtc, eth, doge));
        assert_eq!(c.is_valid, 0);
        assert_eq!((c.wbtc, c.eth, c.doge), (wbtc, eth, doge));
    }
}

#[test]
fn validity_holds_only_at_the_target_in_a_grid_around_it() {
    for wbtc in 8..=12u64 {
        for eth in 28..=32u64 {
            for doge in 58..=62u64 {
                let c = check_allocation(&inputs(wbtc, eth, doge));
                let expected = (wbtc, eth, doge) == (10, 30, 60);
                assert_eq!(c.is_valid == 1, expected);
                assert!(c.is_valid <= 1);
            }
        }
    }
}

#[test]
fn permuted_targets_are_invalid() {
    assert_eq!(check_allocation(&inputs(30, 10, 60)).is_valid, 0);
    assert_eq!(check_allocation(&inputs(60, 30, 10)).is_valid, 0);
    assert_eq!(check_allocation(&inputs(10, 60, 30)).is_valid, 0);
}

#[test]
fn the_agent_does_not_change_the_verdict() {
    for agent_id in [0u64, 1, 10, u64::MAX] {
        let valid = check_allocation(&ProofInputs { agent_id, wbtc: 10, eth: 30, doge: 60 });
        assert_eq!((valid.agent_id, valid.is_valid), (agent_id, 1));
        let invalid = check_allocation(&ProofInputs { agent_id, wbtc: 10, eth: 30, doge: 61 });
        assert_eq!((invalid.agent_id, invalid.is_valid), (agent_id, 0));
    }
}

#[test]
fn the_output_is_the_canonical_form_of_the_commitment() {
    let given = inputs(10, 30, 60);
    assert_eq!(commit(&given), encode(&check_allocation(&given)));
    assert_eq!(
        commit(&given),
        vec![
            0, 0, 0, 0, 0, 0, 0, 77, 0, 0, 0, 0, 0, 0, 0, 10, 0, 0, 0, 0, 0, 0, 0, 30, 0, 0, 0, 0,
            0, 0, 0, 60, 0, 0, 0, 0, 0, 0, 0, 1
        ]
    );
}

#[test]
fn the_output_always_decodes() {
    for given in [inputs(10, 30, 60), inputs(11, 30, 60), inputs(0, 0, 0), inputs(u64::MAX, 1, 2)]
    {
        assert_eq!(decode(&commit(&given)), Ok(check_allocation(&given)));
    }
}

#[test]
fn identical_inputs_give_identical_output() {
    let given = inputs(10, 30, 60);
    assert_eq!(commit(&given), commit(&given));
    assert_eq!(commit(&inputs(5, 6, 7)), commit(&inputs(5, 6, 7)));
}
