use vstd::prelude::*;

verus! {

/// The side a node takes in the swap, as the command line chose it.
#[derive(Clone, Copy, Debug, PartialEq, Eq)]
pub enum Role {
    /// Alice sells Monero; the amounts come from her rate, not from the command line.
    Alice,
    /// Bob buys Monero with this many satoshis.
    Bob { satoshis: u64 },
}

/// Why the command line was refused.
#[derive(Clone, Copy, Debug, PartialEq, Eq)]
pub enum OptionsError {
    /// An amount was given to Alice.
    AliceCannotSetAmount,
    /// Bob was given both amounts.
    MoreThanOneAmount,
    /// Bob was given no amount.
    NoAmount,
}

impl OptionsError {
    /// The message that describes the error.
    pub fn message(&self) -> (s: String)
        ensures
            self == OptionsError::AliceCannotSetAmount ==> s@
                == "Alice cannot set the amount to swap via the cli"@,
            self == OptionsError::MoreThanOneAmount ==> s@
                == "Please supply only a single amount to swap"@,
            self == OptionsError::NoAmount ==> s@ == "Please supply an amount to swap"@,
    {
        match self {
            OptionsError::AliceCannotSetAmount => String::from_str(
                "Alice cannot set the amount to swap via the cli",
            ),
            OptionsError::MoreThanOneAmount => String::from_str(
                "Please supply only a single amount to swap",
            ),
            OptionsError::NoAmount => String::from_str("Please supply an amount to swap"),
        }
    }
}

/// The outcome of the command line's checks.
pub open spec fn options_outcome(as_alice: bool, piconeros: Option<u64>, satoshis: Option<u64>) -> Result<
    Role,
    OptionsError,
> {
    if as_alice {
        if piconeros is Some || satoshis is Some {
            Err(OptionsError::AliceCannotSetAmount)
        } else {
            Ok(Role::Alice)
        }
    } else {
        match (piconeros, satoshis) {
            (Some(_), Some(_)) => Err(OptionsError::MoreThanOneAmount),
            (None, Some(sats)) => Ok(Role::Bob { satoshis: sats }),
            _ => Err(OptionsError::NoAmount),
        }
    }
}

/// Checks the swap options of the command line: Alice takes no amount, and Bob takes
/// exactly one, which must be in satoshis (an amount in piconeros alone is not supported).
pub fn check_options(as_alice: bool, piconeros: Option<u64>, satoshis: Option<u64>) -> (r: Result<
    Role,
    OptionsError,
>)
    requires
        !(!as_alice && piconeros is Some && satoshis is None),
    ensures
        r == options_outcome(as_alice, piconeros, satoshis),
        as_alice && piconeros is None && satoshis is None ==> r == Ok::<Role, OptionsError>(Role::Alice),
        as_alice && (piconeros is Some || satoshis is Some) ==> r == Err::<Role, OptionsError>(
            OptionsError::AliceCannotSetAmount,
        ),
        !as_alice && piconeros is None && satoshis is Some ==> r == Ok::<Role, OptionsError>(
            Role::Bob { satoshis: satoshis->0 },
        ),
        !as_alice && piconeros is Some && satoshis is Some ==> r == Err::<Role, OptionsError>(
            OptionsError::MoreThanOneAmount,
        ),
        !as_alice && piconeros is None && satoshis is None ==> r == Err::<Role, OptionsError>(
            OptionsError::NoAmount,
        ),
        r matches Ok(Role::Bob { satoshis: s }) ==> satoshis == Some(s) && !as_alice,
{
    if as_alice {
        if piconeros.is_some() || satoshis.is_some() {
            Err(OptionsError::AliceCannotSetAmount)
        } else {
            Ok(Role::Alice)
        }
    } else {
        match (piconeros, satoshis) {
            (Some(_), Some(_)) => Err(OptionsError::MoreThanOneAmount),
            (None, None) => Err(OptionsError::NoAmount),
            (None, Some(sats)) => Ok(Role::Bob { satoshis: sats }),
            (Some(_), None) => {
                proof {
                    assert(false);
                }
                Err(OptionsError::NoAmount)
            },
        }
    }
}

/// Bob swaps exactly the satoshis he asked for, and the options are refused exactly when
/// Alice is given an amount or Bob is given none or both.
pub proof fn lemma_bob_swaps_the_given_amount(s: u64, as_alice: bool, piconeros: Option<u64>, satoshis: Option<u64>)
    ensures
        options_outcome(false, None, Some(s)) == Ok::<Role, OptionsError>(Role::Bob { satoshis: s }),
        options_outcome(true, None, None) == Ok::<Role, OptionsError>(Role::Alice),
        options_outcome(as_alice, piconeros, satoshis) matches Ok(Role::Bob { satoshis: t }) ==> !as_alice
            && satoshis == Some(t) && piconeros is None,
        options_outcome(as_alice, piconeros, satoshis) == Ok::<Role, OptionsError>(Role::Alice) <==> (
        as_alice && piconeros is None && satoshis is None),
        options_outcome(as_alice, piconeros, satoshis) is Err <==> (if as_alice {
            piconeros is Some || satoshis is Some
        } else {
            !(piconeros is None && satoshis is Some)
        }),
{
}

} // verus!
