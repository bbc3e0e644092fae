//! The reward actor's method dispatch.
//!
//! A message names a method by its number and carries serialized
//! parameters. The dispatcher maps the number to a method, checks that the
//! parameters have the shape the method declares, invokes the handler, and
//! wraps what the handler returns. A message that is refused at the first
//! two steps reaches no handler.

use vstd::prelude::*;
use crate::address::Address;
use crate::encoding::{address_params, Serialized};
use crate::error::{ActorError, ExitCode};

verus! {

/// The number that names a method of an actor.
pub type MethodNum = u64;

/// The number of the constructor, in every actor.
pub const METHOD_CONSTRUCTOR: MethodNum = 0;

/// The methods of the reward actor.
#[derive(Clone, Copy, Debug, PartialEq, Eq, Structural)]
pub enum Method {
    Constructor,
    AwardBlockReward,
    WithdrawReward,
}

impl Method {
    /// The method that the number `m` names, if it names one.
    pub open spec fn spec_from_method_num(m: MethodNum) -> Option<Method> {
        if m == METHOD_CONSTRUCTOR {
            Some(Method::Constructor)
        } else if m == 2 {
            Some(Method::AwardBlockReward)
        } else if m == 3 {
            Some(Method::WithdrawReward)
        } else {
            None
        }
    }

    /// The number that names this method.
    pub open spec fn spec_method_num(self) -> MethodNum {
        match self {
            Method::Constructor => METHOD_CONSTRUCTOR,
            Method::AwardBlockReward => 2,
            Method::WithdrawReward => 3,
        }
    }

    /// The method that the number `m` names, if it names one.
    pub fn from_method_num(m: MethodNum) -> (r: Option<Method>)
        ensures
            r == Method::spec_from_method_num(m),
    {
        if m == METHOD_CONSTRUCTOR {
            Some(Method::Constructor)
        } else if m == 2 {
            Some(Method::AwardBlockReward)
        } else if m == 3 {
            Some(Method::WithdrawReward)
        } else {
            None
        }
    }

    /// The number that names this method.
    pub fn method_num(self) -> (m: MethodNum)
        ensures
            m == self.spec_method_num(),
    {
        match self {
            Method::Constructor => METHOD_CONSTRUCTOR,
            Method::AwardBlockReward => 2,
            Method::WithdrawReward => 3,
        }
    }
}

/// A method together with the parameters read for it: what the dispatcher
/// hands to the handler.
#[derive(Clone, Copy, Debug, PartialEq, Eq)]
pub enum Call {
    Constructor,
    AwardBlockReward,
    /// Withdraw the reward of the miner at this address.
    WithdrawReward(Address),
}

impl Call {
    /// The method that is called.
    pub open spec fn method(self) -> Method {
        match self {
            Call::Constructor => Method::Constructor,
            Call::AwardBlockReward => Method::AwardBlockReward,
            Call::WithdrawReward(_) => Method::WithdrawReward,
        }
    }
}

/// The reward actor's own logic, behind the dispatcher. Each method of the
/// actor has its handler here.
pub trait RewardHandler: Sized {
    /// Sets the actor up.
    fn constructor(&mut self) -> Result<(), ActorError>;

    /// Mints the reward of a block and credits it to its miner.
    fn award_block_reward(&mut self) -> Result<(), ActorError>;

    /// Pays out the reward that the miner at `miner` has earned.
    fn withdraw_reward(&mut self, miner: &Address) -> Result<(), ActorError>;
}

/// Why a message is refused before any handler runs, or `None` for a message
/// that goes through to its handler: a number that names no method is an
/// invalid method; parameters for a method that takes none, and parameters
/// that are not the one address that `WithdrawReward` takes, are malformed.
pub open spec fn refusal(method: MethodNum, params: Seq<u8>) -> Option<ExitCode> {
    match Method::spec_from_method_num(method) {
        None => Some(ExitCode::InvalidMethod),
        Some(Method::Constructor) | Some(Method::AwardBlockReward) => if params.len() == 0 {
            None
        } else {
            Some(ExitCode::MalformedParameters)
        },
        Some(Method::WithdrawReward) => if exists|a: Address| address_params(a) == params {
            None
        } else {
            Some(ExitCode::MalformedParameters)
        },
    }
}

/// The message that goes with a refusal of category `code`.
pub open spec fn refusal_message(code: ExitCode) -> Seq<char> {
    if code == ExitCode::InvalidMethod {
        "Invalid method"@
    } else {
        "Malformed parameters"@
    }
}

/// The reward actor.
#[derive(Clone, Copy, Debug, PartialEq, Eq, Structural)]
pub struct Actor;

impl Actor {
    /// Maps a method number and serialized parameters to the call to make.
    /// A message is refused exactly when `refusal` says so, with that
    /// category; every other message yields the call of the method that the
    /// number names, with the parameters read from `params`.
    pub fn dispatch(method: MethodNum, params: &Serialized) -> (r: Result<Call, ActorError>)
        ensures
            refusal(method, params@) matches Some(code) ==> (r matches Err(e) && e@ == (
                code,
                refusal_message(code),
            )),
            refusal(method, params@) is None ==> (r matches Ok(call) && Some(call.method())
                == Method::spec_from_method_num(method) && (call matches Call::WithdrawReward(a)
                ==> address_params(a) == params@)),
    {
        match Method::from_method_num(method) {
            Some(Method::Constructor) => {
                if params.is_empty() {
                    Ok(Call::Constructor)
                } else {
                    Err(ActorError::new(ExitCode::MalformedParameters, "Malformed parameters"))
                }
            },
            Some(Method::AwardBlockReward) => {
                if params.is_empty() {
                    Ok(Call::AwardBlockReward)
                } else {
                    Err(ActorError::new(ExitCode::MalformedParameters, "Malformed parameters"))
                }
            },
            Some(Method::WithdrawReward) => match params.to_address() {
                Some(miner) => Ok(Call::WithdrawReward(miner)),
                None => Err(ActorError::new(ExitCode::MalformedParameters, "Malformed parameters")),
            },
            None => Err(ActorError::new(ExitCode::InvalidMethod, "Invalid method")),
        }
    }

    /// Wraps what a handler returned: success becomes the empty payload,
    /// since no method of this actor returns a value, and a failure is
    /// passed on as it is.
    pub fn envelope(result: Result<(), ActorError>) -> (r: Result<Serialized, ActorError>)
        ensures
            result is Ok ==> (r matches Ok(s) && s@ == Seq::<u8>::empty()),
            result matches Err(e) ==> r == Err::<Serialized, ActorError>(e),
    {
        match result {
            Ok(()) => Ok(Serialized::default()),
            Err(e) => Err(e),
        }
    }

    /// Runs one message against the reward actor: dispatches it, invokes the
    /// handler of its method on `rt`, and wraps the handler's result.
    ///
    /// A refused message aborts with its category and leaves `rt` untouched.
    /// For every other message the outcome is the handler's: success with the
    /// empty payload, or the handler's own failure.
    pub fn invoke_method<H: RewardHandler>(
        &self,
        rt: &mut H,
        method: MethodNum,
        params: &Serialized,
    ) -> (r: Result<Serialized, ActorError>)
        ensures
            refusal(method, params@) matches Some(code) ==> *final(rt) == *old(rt) && (
            r matches Err(e) && e@ == (code, refusal_message(code))),
            refusal(method, params@) is None ==> (r matches Ok(s) ==> s@ == Seq::<u8>::empty()),
    {
        match Actor::dispatch(method, params) {
            Ok(Call::Constructor) => Actor::envelope(rt.constructor()),
            Ok(Call::AwardBlockReward) => Actor::envelope(rt.award_block_reward()),
            Ok(Call::WithdrawReward(miner)) => Actor::envelope(rt.withdraw_reward(&miner)),
            Err(e) => Err(e),
        }
    }
}

/// A number that names no method is refused as an invalid method, whatever
/// the parameters; the numbers that name the three methods are the only ones
/// that are not.
pub proof fn lemma_unknown_method_is_invalid(method: MethodNum, params: Seq<u8>)
    ensures
        refusal(method, params) == Some(ExitCode::InvalidMethod) <==> !(method == 0 || method == 2
            || method == 3),
        Method::spec_from_method_num(method) matches Some(m) ==> m.spec_method_num() == method,
{
}

} // verus!
