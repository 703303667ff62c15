//! Failures of the checks that run before anything is sent to a chain.

use crate::foreign::bech32_text;
use crate::foreign::cosmos_address_bech32;
use crate::foreign::same_cosmos_address;
use crate::foreign::same_eth_address;
use clarity::Address;
use deep_space::Address as CosmosAddress;
use tonic::Status;
use vstd::prelude::*;
use vstd::string::StringExecFns;

verus! {

/// What a validator's own configuration can get wrong. Each variant carries
/// what its message needs, so that nothing has to be asked of a chain again.
#[derive(Debug)]
#[allow(clippy::large_enum_variant)]
pub enum ValidityCheckError {
    EthreumOrchestratorAddressesIncorrect {
        delegate_eth_address: Address,
        req_delegate_eth_address: Address,
        delegate_orchestrator_address: CosmosAddress,
        req_delegate_orchestrator_address: CosmosAddress,
    },
    EthereumAddressIncorrect { delegate_eth_address: Address, req_delegate_eth_address: Address },
    OrchestratorAddressIncorrect {
        delegate_orchestrator_address: CosmosAddress,
        req_delegate_orchestrator_address: CosmosAddress,
    },
    DifferentValidtatorAddresses,
    EthereumAddressPrivateKeyIncorrect(Status),
    OrchestratorAddressPharseIncorrect(Status),
    DelegateKeysNotSet,
    FeeGreaterThanBalance,
    NoBalanceForSpecifiedToken { denom: String, address: CosmosAddress },
    EthereumBalanceZero,
    EthereumKeyNotSpecified,
    CosmosPhraseNotSpecified,
    GravityAddressNotYetSet,
    ConfigDoesNotExist,
}

impl ValidityCheckError {
    /// The message of this error, where `address_text` is the written form
    /// of the account that a missing balance is reported for. Every other
    /// variant has fixed words.
    pub open spec fn rendered(&self, address_text: Seq<char>) -> Seq<char> {
        match self {
            ValidityCheckError::EthreumOrchestratorAddressesIncorrect { .. } =>
                "Your Delegate Ethereum and Orchestrator addresses are both incorrect!"@,
            ValidityCheckError::EthereumAddressIncorrect { .. } =>
                "Your Delegate Ethereum address is incorrect!"@,
            ValidityCheckError::OrchestratorAddressIncorrect { .. } =>
                "Your Delegate Orchestrator address is incorrect!"@,
            ValidityCheckError::DifferentValidtatorAddresses =>
                "You are using delegate keys from two different validator addresses!"@,
            ValidityCheckError::EthereumAddressPrivateKeyIncorrect(_) =>
                "Your delegate Ethereum address is incorrect, please double check you private key"@,
            ValidityCheckError::OrchestratorAddressPharseIncorrect(_) =>
                "Your delegate Cosmos address is incorrect, please double check your phrase"@,
            ValidityCheckError::DelegateKeysNotSet => "Delegate keys are not set!"@,
            ValidityCheckError::FeeGreaterThanBalance =>
                "You have specified a fee that is greater than your balance of that coin!"@,
            ValidityCheckError::NoBalanceForSpecifiedToken { denom, .. } =>
                "You have specified that fees should be paid in "@ + denom@ + " but account "@
                    + address_text + " has no balance of that token!"@,
            ValidityCheckError::EthereumBalanceZero => "You don't have any Ethereum!"@,
            ValidityCheckError::EthereumKeyNotSpecified => "You must specify an Ethereum key!"@,
            ValidityCheckError::CosmosPhraseNotSpecified =>
                "You must specify a Cosmos key phrase!"@,
            ValidityCheckError::GravityAddressNotYetSet =>
                "The Gravity address is not yet set as a chain parameter!"@,
            ValidityCheckError::ConfigDoesNotExist =>
                "Please run `gbt init` before running this command!"@,
        }
    }

    /// The message of this error, if it has one: a missing balance has none
    /// where the account's address cannot be written in Bech32.
    pub open spec fn message_text(&self) -> Option<Seq<char>> {
        match self {
            ValidityCheckError::NoBalanceForSpecifiedToken { address, .. } => match bech32_text(
                *address,
            ) {
                Some(address_text) => Some(self.rendered(address_text)),
                None => None,
            },
            _ => Some(self.rendered(Seq::<char>::empty())),
        }
    }

    /// Writes the message of this error. `address_text` is read only for a
    /// missing balance.
    pub fn render(&self, address_text: &str) -> (text: String)
        ensures
            text@ == self.rendered(address_text@),
    {
        match self {
            ValidityCheckError::EthreumOrchestratorAddressesIncorrect { .. } => String::from_str(
                "Your Delegate Ethereum and Orchestrator addresses are both incorrect!",
            ),
            ValidityCheckError::EthereumAddressIncorrect { .. } => String::from_str(
                "Your Delegate Ethereum address is incorrect!",
            ),
            ValidityCheckError::OrchestratorAddressIncorrect { .. } => String::from_str(
                "Your Delegate Orchestrator address is incorrect!",
            ),
            ValidityCheckError::DifferentValidtatorAddresses => String::from_str(
                "You are using delegate keys from two different validator addresses!",
            ),
            ValidityCheckError::EthereumAddressPrivateKeyIncorrect(_) => String::from_str(
                "Your delegate Ethereum address is incorrect, please double check you private key",
            ),
            ValidityCheckError::OrchestratorAddressPharseIncorrect(_) => String::from_str(
                "Your delegate Cosmos address is incorrect, please double check your phrase",
            ),
            ValidityCheckError::DelegateKeysNotSet => String::from_str(
                "Delegate keys are not set!",
            ),
            ValidityCheckError::FeeGreaterThanBalance => String::from_str(
                "You have specified a fee that is greater than your balance of that coin!",
            ),
            ValidityCheckError::NoBalanceForSpecifiedToken { denom, .. } => String::from_str(
                "You have specified that fees should be paid in ",
            ).concat(denom.as_str()).concat(" but account ").concat(address_text).concat(
                " has no balance of that token!",
            ),
            ValidityCheckError::EthereumBalanceZero => String::from_str(
                "You don't have any Ethereum!",
            ),
            ValidityCheckError::EthereumKeyNotSpecified => String::from_str(
                "You must specify an Ethereum key!",
            ),
            ValidityCheckError::CosmosPhraseNotSpecified => String::from_str(
                "You must specify a Cosmos key phrase!",
            ),
            ValidityCheckError::GravityAddressNotYetSet => String::from_str(
                "The Gravity address is not yet set as a chain parameter!",
            ),
            ValidityCheckError::ConfigDoesNotExist => String::from_str(
                "Please run `gbt init` before running this command!",
            ),
        }
    }

    /// The message of this error, with the account of a missing balance
    /// written in Bech32; `None` where that address cannot be written.
    pub fn message(&self) -> (text: Option<String>)
        ensures
            text is Some == self.message_text() is Some,
            text matches Some(written) ==> self.message_text() == Some(written@),
    {
        match self {
            ValidityCheckError::NoBalanceForSpecifiedToken { address, .. } => {
                match cosmos_address_bech32(address) {
                    Some(address_text) => Some(self.render(address_text.as_str())),
                    None => None,
                }
            },
            _ => Some(self.render("")),
        }
    }
}

/// What the comparison of the two derived addresses with the two registered
/// ones comes to: both wrong, one wrong, or nothing to report.
pub open spec fn address_verdict(
    delegate_eth_address: Address,
    req_delegate_eth_address: Address,
    delegate_orchestrator_address: CosmosAddress,
    req_delegate_orchestrator_address: CosmosAddress,
) -> Result<(), ValidityCheckError> {
    let eth_wrong = req_delegate_eth_address != delegate_eth_address;
    let orchestrator_wrong = req_delegate_orchestrator_address != delegate_orchestrator_address;
    if eth_wrong && orchestrator_wrong {
        Err(
            ValidityCheckError::EthreumOrchestratorAddressesIncorrect {
                delegate_eth_address,
                req_delegate_eth_address,
                delegate_orchestrator_address,
                req_delegate_orchestrator_address,
            },
        )
    } else if eth_wrong {
        Err(
            ValidityCheckError::EthereumAddressIncorrect {
                delegate_eth_address,
                req_delegate_eth_address,
            },
        )
    } else if orchestrator_wrong {
        Err(
            ValidityCheckError::OrchestratorAddressIncorrect {
                delegate_orchestrator_address,
                req_delegate_orchestrator_address,
            },
        )
    } else {
        Ok(())
    }
}

/// What the comparison of the two validators comes to, to which the two
/// keys are registered.
pub open spec fn validator_verdict(
    eth_key_validator: Seq<char>,
    orchestrator_key_validator: Seq<char>,
) -> Result<(), ValidityCheckError> {
    if eth_key_validator != orchestrator_key_validator {
        Err(ValidityCheckError::DifferentValidtatorAddresses)
    } else {
        Ok(())
    }
}

/// What the whole check of a pair of delegate keys comes to: a wrong address
/// is reported first, and keys of two validators where both addresses are
/// right.
pub open spec fn delegate_verdict(
    delegate_eth_address: Address,
    req_delegate_eth_address: Address,
    delegate_orchestrator_address: CosmosAddress,
    req_delegate_orchestrator_address: CosmosAddress,
    eth_key_validator: Seq<char>,
    orchestrator_key_validator: Seq<char>,
) -> Result<(), ValidityCheckError> {
    let addresses = address_verdict(
        delegate_eth_address,
        req_delegate_eth_address,
        delegate_orchestrator_address,
        req_delegate_orchestrator_address,
    );
    if addresses is Err {
        addresses
    } else {
        validator_verdict(eth_key_validator, orchestrator_key_validator)
    }
}

/// Compares the Ethereum and the Cosmos address that were derived from the
/// local keys with those that the chain has registered for this validator.
pub fn check_registered_addresses(
    delegate_eth_address: Address,
    req_delegate_eth_address: Address,
    delegate_orchestrator_address: CosmosAddress,
    req_delegate_orchestrator_address: CosmosAddress,
) -> (verdict: Result<(), ValidityCheckError>)
    ensures
        verdict == address_verdict(
            delegate_eth_address,
            req_delegate_eth_address,
            delegate_orchestrator_address,
            req_delegate_orchestrator_address,
        ),
{
    let eth_right = same_eth_address(&req_delegate_eth_address, &delegate_eth_address);
    let orchestrator_right = same_cosmos_address(
        &req_delegate_orchestrator_address,
        &delegate_orchestrator_address,
    );
    if !eth_right && !orchestrator_right {
        Err(
            ValidityCheckError::EthreumOrchestratorAddressesIncorrect {
                delegate_eth_address,
                req_delegate_eth_address,
                delegate_orchestrator_address,
                req_delegate_orchestrator_address,
            },
        )
    } else if !eth_right {
        Err(
            ValidityCheckError::EthereumAddressIncorrect {
                delegate_eth_address,
                req_delegate_eth_address,
            },
        )
    } else if !orchestrator_right {
        Err(
            ValidityCheckError::OrchestratorAddressIncorrect {
                delegate_orchestrator_address,
                req_delegate_orchestrator_address,
            },
        )
    } else {
        Ok(())
    }
}

/// Compares the validator to which the Ethereum key is registered with the
/// one to which the Cosmos key is registered. The addresses play no part.
pub fn check_same_validator(eth_key_validator: &str, orchestrator_key_validator: &str) -> (verdict:
    Result<(), ValidityCheckError>)
    ensures
        verdict == validator_verdict(eth_key_validator@, orchestrator_key_validator@),
{
    let of_eth_key = eth_key_validator.to_owned();
    let of_orchestrator_key = orchestrator_key_validator.to_owned();
    if of_eth_key != of_orchestrator_key {
        Err(ValidityCheckError::DifferentValidtatorAddresses)
    } else {
        Ok(())
    }
}

/// Checks a pair of delegate keys against what the chain has registered:
/// first the two addresses, then, where both are right, that the two keys
/// belong to one validator.
pub fn check_delegate_addresses(
    delegate_eth_address: Address,
    req_delegate_eth_address: Address,
    delegate_orchestrator_address: CosmosAddress,
    req_delegate_orchestrator_address: CosmosAddress,
    eth_key_validator: &str,
    orchestrator_key_validator: &str,
) -> (verdict: Result<(), ValidityCheckError>)
    ensures
        verdict == delegate_verdict(
            delegate_eth_address,
            req_delegate_eth_address,
            delegate_orchestrator_address,
            req_delegate_orchestrator_address,
            eth_key_validator@,
            orchestrator_key_validator@,
        ),
{
    let addresses = check_registered_addresses(
        delegate_eth_address,
        req_delegate_eth_address,
        delegate_orchestrator_address,
        req_delegate_orchestrator_address,
    );
    if addresses.is_err() {
        addresses
    } else {
        check_same_validator(eth_key_validator, orchestrator_key_validator)
    }
}

/// Whether `verdict` is what the check of a fee against a balance comes to.
/// A fee of nothing is always covered. Otherwise an account that holds
/// nothing of the fee's token is told so, with the token and the account;
/// one that holds less than the fee is told that the fee is too high.
pub open spec fn is_fee_verdict(
    verdict: Result<(), ValidityCheckError>,
    fee_amount: u128,
    fee_denom: Seq<char>,
    balance: u128,
    address: CosmosAddress,
) -> bool {
    if fee_amount == 0 {
        verdict is Ok
    } else if balance == 0 {
        verdict matches Err(ValidityCheckError::NoBalanceForSpecifiedToken { denom, address: account })
            && denom@ == fee_denom && account == address
    } else if fee_amount > balance {
        verdict == Err::<(), ValidityCheckError>(ValidityCheckError::FeeGreaterThanBalance)
    } else {
        verdict is Ok
    }
}

/// Checks that the account at `address`, which holds `balance` of the token
/// `fee_denom`, can pay `fee_amount` of it.
pub fn check_for_fee(fee_amount: u128, fee_denom: &str, balance: u128, address: CosmosAddress) -> (verdict:
    Result<(), ValidityCheckError>)
    ensures
        is_fee_verdict(verdict, fee_amount, fee_denom@, balance, address),
{
    if fee_amount == 0 {
        Ok(())
    } else if balance == 0 {
        Err(ValidityCheckError::NoBalanceForSpecifiedToken { denom: fee_denom.to_owned(), address })
    } else if fee_amount > balance {
        Err(ValidityCheckError::FeeGreaterThanBalance)
    } else {
        Ok(())
    }
}

/// What the check of an Ethereum balance comes to: an empty account is
/// reported, any other is not.
pub open spec fn eth_balance_verdict(balance: u128) -> Result<(), ValidityCheckError> {
    if balance == 0 {
        Err(ValidityCheckError::EthereumBalanceZero)
    } else {
        Ok(())
    }
}

/// Checks that an Ethereum account holds anything at all.
pub fn check_for_eth(balance: u128) -> (verdict: Result<(), ValidityCheckError>)
    ensures
        verdict == eth_balance_verdict(balance),
{
    if balance == 0 {
        Err(ValidityCheckError::EthereumBalanceZero)
    } else {
        Ok(())
    }
}

/// The two address comparisons have four outcomes. Where both addresses are
/// wrong, the error names both and carries the four addresses. Where one is
/// wrong, the error names that side and carries its two addresses. Where
/// none is wrong, there is no error.
pub proof fn lemma_address_verdict_by_case(
    delegate_eth_address: Address,
    req_delegate_eth_address: Address,
    delegate_orchestrator_address: CosmosAddress,
    req_delegate_orchestrator_address: CosmosAddress,
)
    ensures
        ({
            let verdict = address_verdict(
                delegate_eth_address,
                req_delegate_eth_address,
                delegate_orchestrator_address,
                req_delegate_orchestrator_address,
            );
            let eth_right = delegate_eth_address == req_delegate_eth_address;
            let orchestrator_right = delegate_orchestrator_address
                == req_delegate_orchestrator_address;
            &&& !eth_right && !orchestrator_right ==> verdict == Err::<(), ValidityCheckError>(
                ValidityCheckError::EthreumOrchestratorAddressesIncorrect {
                    delegate_eth_address,
                    req_delegate_eth_address,
                    delegate_orchestrator_address,
                    req_delegate_orchestrator_address,
                },
            )
            &&& !eth_right && orchestrator_right ==> verdict == Err::<(), ValidityCheckError>(
                ValidityCheckError::EthereumAddressIncorrect {
                    delegate_eth_address,
                    req_delegate_eth_address,
                },
            )
            &&& eth_right && !orchestrator_right ==> verdict == Err::<(), ValidityCheckError>(
                ValidityCheckError::OrchestratorAddressIncorrect {
                    delegate_orchestrator_address,
                    req_delegate_orchestrator_address,
                },
            )
            &&& eth_right && orchestrator_right ==> verdict == Ok::<(), ValidityCheckError>(())
        }),
{
}

/// For keys of one validator the whole check comes to what the two address
/// comparisons come to: one error with the four addresses where both are
/// wrong, the error of one side with its two addresses where that side
/// alone is wrong, and no error where none is wrong.
pub proof fn lemma_delegate_verdict_of_one_validator(
    delegate_eth_address: Address,
    req_delegate_eth_address: Address,
    delegate_orchestrator_address: CosmosAddress,
    req_delegate_orchestrator_address: CosmosAddress,
    validator: Seq<char>,
)
    ensures
        ({
            let verdict = delegate_verdict(
                delegate_eth_address,
                req_delegate_eth_address,
                delegate_orchestrator_address,
                req_delegate_orchestrator_address,
                validator,
                validator,
            );
            let eth_right = delegate_eth_address == req_delegate_eth_address;
            let orchestrator_right = delegate_orchestrator_address
                == req_delegate_orchestrator_address;
            &&& !eth_right && !orchestrator_right ==> verdict == Err::<(), ValidityCheckError>(
                ValidityCheckError::EthreumOrchestratorAddressesIncorrect {
                    delegate_eth_address,
                    req_delegate_eth_address,
                    delegate_orchestrator_address,
                    req_delegate_orchestrator_address,
                },
            )
            &&& !eth_right && orchestrator_right ==> verdict == Err::<(), ValidityCheckError>(
                ValidityCheckError::EthereumAddressIncorrect {
                    delegate_eth_address,
                    req_delegate_eth_address,
                },
            )
            &&& eth_right && !orchestrator_right ==> verdict == Err::<(), ValidityCheckError>(
                ValidityCheckError::OrchestratorAddressIncorrect {
                    delegate_orchestrator_address,
                    req_delegate_orchestrator_address,
                },
            )
            &&& eth_right && orchestrator_right ==> verdict == Ok::<(), ValidityCheckError>(())
        }),
{
}

/// The whole check names a side only where the comparison of that side
/// failed, whatever the validators are: the error of both sides where both
/// addresses are wrong, the error of one side where that address is wrong
/// and the other is right.
pub proof fn lemma_named_side_is_wrong(
    delegate_eth_address: Address,
    req_delegate_eth_address: Address,
    delegate_orchestrator_address: CosmosAddress,
    req_delegate_orchestrator_address: CosmosAddress,
    eth_key_validator: Seq<char>,
    orchestrator_key_validator: Seq<char>,
)
    ensures
        ({
            let verdict = delegate_verdict(
                delegate_eth_address,
                req_delegate_eth_address,
                delegate_orchestrator_address,
                req_delegate_orchestrator_address,
                eth_key_validator,
                orchestrator_key_validator,
            );
            let eth_right = delegate_eth_address == req_delegate_eth_address;
            let orchestrator_right = delegate_orchestrator_address
                == req_delegate_orchestrator_address;
            &&& verdict matches Err(
                ValidityCheckError::EthreumOrchestratorAddressesIncorrect { .. },
            ) ==> !eth_right && !orchestrator_right
            &&& verdict matches Err(ValidityCheckError::EthereumAddressIncorrect { .. })
                ==> !eth_right && orchestrator_right
            &&& verdict matches Err(ValidityCheckError::OrchestratorAddressIncorrect { .. })
                ==> eth_right && !orchestrator_right
            &&& verdict matches Err(ValidityCheckError::DifferentValidtatorAddresses) ==> eth_right
                && orchestrator_right && eth_key_validator != orchestrator_key_validator
            &&& verdict is Ok ==> eth_right && orchestrator_right && eth_key_validator
                == orchestrator_key_validator
        }),
{
}

/// Keys of two different validators are reported as such by the comparison
/// of the validators, whatever the addresses are.
pub proof fn lemma_two_validators_reported(
    eth_key_validator: Seq<char>,
    orchestrator_key_validator: Seq<char>,
)
    requires
        eth_key_validator != orchestrator_key_validator,
    ensures
        validator_verdict(eth_key_validator, orchestrator_key_validator) == Err::<
            (),
            ValidityCheckError,
        >(ValidityCheckError::DifferentValidtatorAddresses),
{
}

/// In the whole check, keys of two different validators are reported as
/// such wherever both addresses are right; a wrong address is reported in
/// their place.
pub proof fn lemma_two_validators_reported_after_addresses(
    delegate_eth_address: Address,
    req_delegate_eth_address: Address,
    delegate_orchestrator_address: CosmosAddress,
    req_delegate_orchestrator_address: CosmosAddress,
    eth_key_validator: Seq<char>,
    orchestrator_key_validator: Seq<char>,
)
    requires
        eth_key_validator != orchestrator_key_validator,
        delegate_eth_address == req_delegate_eth_address,
        delegate_orchestrator_address == req_delegate_orchestrator_address,
    ensures
        delegate_verdict(
            delegate_eth_address,
            req_delegate_eth_address,
            delegate_orchestrator_address,
            req_delegate_orchestrator_address,
            eth_key_validator,
            orchestrator_key_validator,
        ) == Err::<(), ValidityCheckError>(ValidityCheckError::DifferentValidtatorAddresses),
{
}

} // verus!
