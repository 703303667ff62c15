use gravity_utils::validation::check_delegate_addresses;
use gravity_utils::validation::check_for_eth;
use gravity_utils::validation::check_for_fee;
use gravity_utils::validation::check_registered_addresses;
use gravity_utils::validation::check_same_validator;
use gravity_utils::validation::ValidityCheckError;

fn eth(byte: u8) -> clarity::Address {
    clarity::Address::from_slice(&[byte; 20]).unwrap()
}

fn cosmos(byte: u8) -> deep_space::Address {
    deep_space::Address::from_slice(&[byte; 20], "gravity").unwrap()
}

const VALIDATOR_A: &str = "gravityvaloper1aaaa";
const VALIDATOR_B: &str = "gravityvaloper1bbbb";

#[test]
fn both_addresses_wrong_gives_the_combined_variant() {
    match check_registered_addresses(eth(0xAA), eth(0xBB), cosmos(1), cosmos(2)) {
        Err(ValidityCheckError::EthreumOrchestratorAddressesIncorrect {
            delegate_eth_address,
            req_delegate_eth_address,
            delegate_orchestrator_address,
            req_delegate_orchestrator_address,
        }) => {
            assert_eq!(delegate_eth_address, eth(0xAA));
            assert_eq!(req_delegate_eth_address, eth(0xBB));
            assert_eq!(delegate_orchestrator_address, cosmos(1));
            assert_eq!(req_delegate_orchestrator_address, cosmos(2));
        }
        other => panic!("unexpected {:?}", other),
    }
}

#[test]
fn ethereum_address_wrong_alone() {
    match check_registered_addresses(eth(0xAA), eth(0xBB), cosmos(1), cosmos(1)) {
        Err(ValidityCheckError::EthereumAddressIncorrect {
            delegate_eth_address,
            req_delegate_eth_address,
        }) => {
            assert_eq!(delegate_eth_address, eth(0xAA));
            assert_eq!(req_delegate_eth_address, eth(0xBB));
        }
        other => panic!("unexpected {:?}", other),
    }
}

#[test]
fn orchestrator_address_wrong_alone() {
    match check_registered_addresses(eth(0xAA), eth(0xAA), cosmos(1), cosmos(2)) {
        Err(ValidityCheckError::OrchestratorAddressIncorrect {
            delegate_orchestrator_address,
            req_delegate_orchestrator_address,
        }) => {
            assert_eq!(delegate_orchestrator_address, cosmos(1));
            assert_eq!(req_delegate_orchestrator_address, cosmos(2));
        }
        other => panic!("unexpected {:?}", other),
    }
}

#[test]
fn both_addresses_right_gives_nothing() {
    assert!(check_registered_addresses(eth(0xAA), eth(0xAA), cosmos(1), cosmos(1)).is_ok());
}

#[test]
fn same_bytes_under_another_prefix_is_another_address() {
    let here = deep_space::Address::from_slice(&[1; 20], "gravity").unwrap();
    let there = deep_space::Address::from_slice(&[1; 20], "cosmos").unwrap();
    assert!(matches!(
        check_registered_addresses(eth(0xAA), eth(0xAA), here, there),
        Err(ValidityCheckError::OrchestratorAddressIncorrect { .. })
    ));
}

#[test]
fn addresses_that_differ_in_one_byte_differ() {
    let mut bytes = [0xAA; 20];
    bytes[19] = 0xAB;
    let other = clarity::Address::from_slice(&bytes).unwrap();
    assert!(matches!(
        check_registered_addresses(eth(0xAA), other, cosmos(1), cosmos(1)),
        Err(ValidityCheckError::EthereumAddressIncorrect { .. })
    ));
}

#[test]
fn keys_of_two_validators_are_reported() {
    assert!(matches!(
        check_same_validator(VALIDATOR_A, VALIDATOR_B),
        Err(ValidityCheckError::DifferentValidtatorAddresses)
    ));
    assert!(check_same_validator(VALIDATOR_A, VALIDATOR_A).is_ok());
    assert!(check_same_validator("", "").is_ok());
    assert!(matches!(
        check_same_validator("", VALIDATOR_A),
        Err(ValidityCheckError::DifferentValidtatorAddresses)
    ));
}

#[test]
fn whole_check_passes_on_right_keys_of_one_validator() {
    assert!(check_delegate_addresses(
        eth(0xAA),
        eth(0xAA),
        cosmos(1),
        cosmos(1),
        VALIDATOR_A,
        VALIDATOR_A
    )
    .is_ok());
}

#[test]
fn whole_check_reports_two_validators_when_addresses_are_right() {
    assert!(matches!(
        check_delegate_addresses(
            eth(0xAA),
            eth(0xAA),
            cosmos(1),
            cosmos(1),
            VALIDATOR_A,
            VALIDATOR_B
        ),
        Err(ValidityCheckError::DifferentValidtatorAddresses)
    ));
}

#[test]
fn whole_check_reports_a_wrong_address_before_two_validators() {
    assert!(matches!(
        check_delegate_addresses(
            eth(0xAA),
            eth(0xBB),
            cosmos(1),
            cosmos(1),
            VALIDATOR_A,
            VALIDATOR_B
        ),
        Err(ValidityCheckError::EthereumAddressIncorrect { .. })
    ));
    assert!(matches!(
        check_delegate_addresses(
            eth(0xAA),
            eth(0xBB),
            cosmos(1),
            cosmos(2),
            VALIDATOR_A,
            VALIDATOR_B
        ),
        Err(ValidityCheckError::EthreumOrchestratorAddressesIncorrect { .. })
    ));
    assert!(matches!(
        check_delegate_addresses(
            eth(0xAA),
            eth(0xAA),
            cosmos(1),
            cosmos(2),
            VALIDATOR_A,
            VALIDATOR_A
        ),
        Err(ValidityCheckError::OrchestratorAddressIncorrect { .. })
    ));
}

#[test]
fn ethereum_mismatch_scenario() {
    let derived = eth(0xAA);
    let registered = eth(0xBB);
    assert_eq!(
        derived.to_string().to_lowercase(),
        "0xaaaaaaaaaaaaaaaaaaaaaaaaaaaaaaaaaaaaaaaa"
    );
    match check_delegate_addresses(
        derived,
        registered,
        cosmos(7),
        cosmos(7),
        VALIDATOR_A,
        VALIDATOR_A,
    ) {
        Err(ValidityCheckError::EthereumAddressIncorrect {
            delegate_eth_address,
            req_delegate_eth_address,
        }) => {
            assert_eq!(delegate_eth_address, derived);
            assert_eq!(req_delegate_eth_address, registered);
        }
        other => panic!("unexpected {:?}", other),
    }
}

#[test]
fn fee_in_a_token_the_account_does_not_hold() {
    let account = cosmos(9);
    match check_for_fee(100, "ugraviton", 0, account) {
        Err(ValidityCheckError::NoBalanceForSpecifiedToken { denom, address }) => {
            assert_eq!(denom, "ugraviton");
            assert_eq!(address, account);
        }
        other => panic!("unexpected {:?}", other),
    }
}

#[test]
fn fee_above_the_balance() {
    assert!(matches!(
        check_for_fee(100, "ugraviton", 99, cosmos(9)),
        Err(ValidityCheckError::FeeGreaterThanBalance)
    ));
    assert!(matches!(
        check_for_fee(u128::MAX, "ugraviton", u128::MAX - 1, cosmos(9)),
        Err(ValidityCheckError::FeeGreaterThanBalance)
    ));
}

#[test]
fn fee_that_the_balance_covers() {
    assert!(check_for_fee(100, "ugraviton", 100, cosmos(9)).is_ok());
    assert!(check_for_fee(100, "ugraviton", 101, cosmos(9)).is_ok());
    assert!(check_for_fee(u128::MAX, "ugraviton", u128::MAX, cosmos(9)).is_ok());
}

#[test]
fn fee_of_nothing_is_always_covered() {
    assert!(check_for_fee(0, "ugraviton", 0, cosmos(9)).is_ok());
    assert!(check_for_fee(0, "ugraviton", 5, cosmos(9)).is_ok());
}

#[test]
fn empty_ethereum_account_is_reported() {
    assert!(matches!(
        check_for_eth(0),
        Err(ValidityCheckError::EthereumBalanceZero)
    ));
    assert!(check_for_eth(1).is_ok());
    assert!(check_for_eth(u128::MAX).is_ok());
}

#[test]
fn fixed_messages() {
    let status = tonic::Status::new(tonic::Code::NotFound, "no such key");
    let cases: Vec<(ValidityCheckError, &str)> = vec![
        (
            ValidityCheckError::EthreumOrchestratorAddressesIncorrect {
                delegate_eth_address: eth(1),
                req_delegate_eth_address: eth(2),
                delegate_orchestrator_address: cosmos(1),
                req_delegate_orchestrator_address: cosmos(2),
            },
            "Your Delegate Ethereum and Orchestrator addresses are both incorrect!",
        ),
        (
            ValidityCheckError::EthereumAddressIncorrect {
                delegate_eth_address: eth(1),
                req_delegate_eth_address: eth(2),
            },
            "Your Delegate Ethereum address is incorrect!",
        ),
        (
            ValidityCheckError::OrchestratorAddressIncorrect {
                delegate_orchestrator_address: cosmos(1),
                req_delegate_orchestrator_address: cosmos(2),
            },
            "Your Delegate Orchestrator address is incorrect!",
        ),
        (
            ValidityCheckError::DifferentValidtatorAddresses,
            "You are using delegate keys from two different validator addresses!",
        ),
        (
            ValidityCheckError::EthereumAddressPrivateKeyIncorrect(status.clone()),
            "Your delegate Ethereum address is incorrect, please double check you private key",
        ),
        (
            ValidityCheckError::OrchestratorAddressPharseIncorrect(status),
            "Your delegate Cosmos address is incorrect, please double check your phrase",
        ),
        (
            ValidityCheckError::DelegateKeysNotSet,
            "Delegate keys are not set!",
        ),
        (
            ValidityCheckError::FeeGreaterThanBalance,
            "You have specified a fee that is greater than your balance of that coin!",
        ),
        (
            ValidityCheckError::EthereumBalanceZero,
            "You don't have any Ethereum!",
        ),
        (
            ValidityCheckError::EthereumKeyNotSpecified,
            "You must specify an Ethereum key!",
        ),
        (
            ValidityCheckError::CosmosPhraseNotSpecified,
            "You must specify a Cosmos key phrase!",
        ),
        (
            ValidityCheckError::GravityAddressNotYetSet,
            "The Gravity address is not yet set as a chain parameter!",
        ),
        (
            ValidityCheckError::ConfigDoesNotExist,
            "Please run `gbt init` before running this command!",
        ),
    ];
    for (error, expected) in cases {
        assert_eq!(error.message(), Some(expected.to_string()));
        assert_eq!(error.render("unread"), expected);
    }
}

#[test]
fn missing_balance_message_names_token_and_account() {
    let account: deep_space::Address = "cosmos1vlms2r8f6x7yxjh3ynyzc7ckarqd8a96ckjvrp"
        .parse()
        .unwrap();
    let error = check_for_fee(100, "ugraviton", 0, account).unwrap_err();
    assert_eq!(
        error.message(),
        Some(
            "You have specified that fees should be paid in ugraviton but account \
             cosmos1vlms2r8f6x7yxjh3ynyzc7ckarqd8a96ckjvrp has no balance of that token!"
                .to_string()
        )
    );
    assert_eq!(
        error.render("somebody"),
        "You have specified that fees should be paid in ugraviton but account somebody has no \
         balance of that token!"
    );
}

#[test]
fn missing_balance_of_an_unwritable_account_has_no_message() {
    let nameless = deep_space::Address::from_slice(&[3; 20], "").unwrap();
    let error = ValidityCheckError::NoBalanceForSpecifiedToken {
        denom: "ugraviton".to_string(),
        address: nameless,
    };
    assert_eq!(error.message(), None);
    let mixed = deep_space::Address::from_slice(&[3; 20], "Gravity").unwrap();
    let error = ValidityCheckError::NoBalanceForSpecifiedToken {
        denom: "ugraviton".to_string(),
        address: mixed,
    };
    assert_eq!(error.message(), None);
}
