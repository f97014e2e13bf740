//! The rules of the five operations, each as a decision on one survey record.
//!
//! A rule takes what the operation reads (the record stored under the survey
//! identifier, if any, the caller, the flags of the participant, a balance) and
//! returns either the error that refuses the operation or what is to be written.
//! It reads and writes no storage itself, so the same rules serve a registry
//! kept in memory and one kept by a host.
//!
//! The checks of a rule are made in a fixed order, and the first that fails
//! names the error.

use vstd::prelude::*;
use crate::balance::{checked_add, checked_div, checked_sub};
use crate::error::Error;
use crate::survey::{reward_share, AccountId, Balance, Status, Survey, SurveyId};

verus! {

/// What a successful funding writes: the funded record, and the balance that
/// the owner is left with.
#[derive(Clone, Copy, PartialEq, Eq, Debug)]
pub struct Funded {
    pub survey: Survey,
    pub owner_balance: Balance,
}

/// What a successful reward pays: the amount, and the balance that the
/// participant then has.
#[derive(Clone, Copy, PartialEq, Eq, Debug)]
pub struct Rewarded {
    pub reward_amount: Balance,
    pub participant_balance: Balance,
}

/// Creation: refused where a record exists under the identifier. Otherwise the
/// fresh record of the caller.
pub open spec fn create_outcome(
    existing: Option<Survey>,
    caller: AccountId,
    survey_id: SurveyId,
    participants_limit: Balance,
) -> Result<Survey, Error> {
    match existing {
        Some(_) => Err(Error::SurveyAlreadyCreated),
        None => Ok(Survey::fresh(survey_id, caller, participants_limit)),
    }
}

/// Setting the status: the survey must exist and the caller own it. Any status
/// may follow any other.
pub open spec fn set_status_outcome(
    survey: Option<Survey>,
    caller: AccountId,
    new_status: Status,
) -> Result<Survey, Error> {
    match survey {
        None => Err(Error::SurveyNotCreated),
        Some(s) => if s.owner_id != caller {
            Err(Error::NotOwnerOfSurvey)
        } else {
            Ok(Survey { status: new_status, ..s })
        },
    }
}

/// Funding: the survey must exist, the caller own it, the survey be unfunded,
/// the amount reach the participant limit, the owner's balance cover the amount
/// and the limit not be zero, in this order. The owner is debited the whole
/// amount; the reward is the amount divided by the limit.
pub open spec fn fund_outcome(
    survey: Option<Survey>,
    caller: AccountId,
    fund_amount: Balance,
    owner_balance: Balance,
) -> Result<Funded, Error> {
    match survey {
        None => Err(Error::SurveyNotCreated),
        Some(s) => if s.owner_id != caller {
            Err(Error::NotOwnerOfSurvey)
        } else if s.is_funded {
            Err(Error::SurveyAlreadyFunded)
        } else if fund_amount < s.participants_limit {
            Err(Error::FundingInferiorNumberParticipants)
        } else if owner_balance < fund_amount {
            Err(Error::NotEnoughBalanceForFunding)
        } else if s.participants_limit == 0 {
            Err(Error::DefensiveErrorWhenDividing)
        } else {
            Ok(
                Funded {
                    survey: Survey {
                        is_funded: true,
                        funded_amount: Some(fund_amount),
                        reward_amount: Some(reward_share(fund_amount, s.participants_limit)),
                        ..s
                    },
                    owner_balance: (owner_balance - fund_amount) as Balance,
                },
            )
        },
    }
}

/// Registration: the survey must exist, the caller own it, the survey be
/// funded, the participant not be registered yet, the limit not be reached and
/// the survey be active, in this order. The participant count goes up by one.
pub open spec fn register_outcome(
    survey: Option<Survey>,
    caller: AccountId,
    is_registered: bool,
) -> Result<Survey, Error> {
    match survey {
        None => Err(Error::SurveyNotCreated),
        Some(s) => if s.owner_id != caller {
            Err(Error::NotOwnerOfSurvey)
        } else if !s.is_funded {
            Err(Error::SurveyNotFunded)
        } else if is_registered {
            Err(Error::ParticipantAlreadyRegistered)
        } else if s.number_participants >= s.participants_limit {
            Err(Error::MaxNumberOfParticipantsReached)
        } else if s.status != Status::Active {
            Err(Error::SurveyIsNotActive)
        } else {
            Ok(Survey { number_participants: (s.number_participants + 1) as Balance, ..s })
        },
    }
}

/// The reward that a record pays: its reward amount, and nothing where none is
/// set.
pub open spec fn reward_of(survey: Survey) -> Balance {
    match survey.reward_amount {
        Some(amount) => amount,
        None => 0,
    }
}

/// Reward: the survey must exist, the caller own it, the survey be funded, the
/// participant be registered and not paid yet, and the participant's balance
/// plus the reward fit in a `Balance`, in this order. The status of the survey
/// plays no part.
pub open spec fn reward_outcome(
    survey: Option<Survey>,
    caller: AccountId,
    is_registered: bool,
    is_rewarded: bool,
    participant_balance: Balance,
) -> Result<Rewarded, Error> {
    match survey {
        None => Err(Error::SurveyNotCreated),
        Some(s) => if s.owner_id != caller {
            Err(Error::NotOwnerOfSurvey)
        } else if !s.is_funded {
            Err(Error::SurveyNotFunded)
        } else if !is_registered {
            Err(Error::ParticipantNotRegistered)
        } else if is_rewarded {
            Err(Error::ParticipantAlreadyRewarded)
        } else if participant_balance + reward_of(s) > Balance::MAX {
            Err(Error::DefensiveUnexpectedOverflow)
        } else {
            Ok(
                Rewarded {
                    reward_amount: reward_of(s),
                    participant_balance: (participant_balance + reward_of(s)) as Balance,
                },
            )
        },
    }
}

/// Creation followed by funding: the error of the creation where it is
/// refused, otherwise what the funding of the fresh record decides.
pub open spec fn create_and_fund_outcome(
    existing: Option<Survey>,
    caller: AccountId,
    survey_id: SurveyId,
    participants_limit: Balance,
    fund_amount: Balance,
    owner_balance: Balance,
) -> Result<Funded, Error> {
    match create_outcome(existing, caller, survey_id, participants_limit) {
        Ok(survey) => fund_outcome(Some(survey), caller, fund_amount, owner_balance),
        Err(error) => Err(error),
    }
}

/// Decides the creation of a survey under `survey_id`, where `existing` is what
/// the registry holds under that identifier.
pub fn create(
    existing: Option<Survey>,
    caller: AccountId,
    survey_id: SurveyId,
    participants_limit: Balance,
) -> (r: Result<Survey, Error>)
    ensures
        r == create_outcome(existing, caller, survey_id, participants_limit),
        r is Ok ==> r->Ok_0.wf(),
{
    match existing {
        Some(_) => Err(Error::SurveyAlreadyCreated),
        None => Ok(Survey::new(survey_id, caller, participants_limit)),
    }
}

/// Decides a change of status of `survey`.
pub fn set_status(survey: Option<Survey>, caller: AccountId, new_status: Status) -> (r: Result<
    Survey,
    Error,
>)
    ensures
        r == set_status_outcome(survey, caller, new_status),
        r is Ok && survey->0.wf() ==> r->Ok_0.wf(),
{
    match survey {
        None => Err(Error::SurveyNotCreated),
        Some(s) => {
            if s.owner_id != caller {
                return Err(Error::NotOwnerOfSurvey);
            }
            Ok(Survey { status: new_status, ..s })
        },
    }
}

/// Decides the funding of `survey` with `fund_amount`, where `owner_balance` is
/// what the ledger holds for the caller.
pub fn fund(
    survey: Option<Survey>,
    caller: AccountId,
    fund_amount: Balance,
    owner_balance: Balance,
) -> (r: Result<Funded, Error>)
    ensures
        r == fund_outcome(survey, caller, fund_amount, owner_balance),
        r is Ok && survey->0.wf() ==> r->Ok_0.survey.wf(),
{
    match survey {
        None => Err(Error::SurveyNotCreated),
        Some(s) => {
            if s.owner_id != caller {
                return Err(Error::NotOwnerOfSurvey);
            }
            if s.is_funded {
                return Err(Error::SurveyAlreadyFunded);
            }
            if fund_amount < s.participants_limit {
                return Err(Error::FundingInferiorNumberParticipants);
            }
            let new_owner_balance = match checked_sub(owner_balance, fund_amount) {
                Some(balance) => balance,
                None => { return Err(Error::NotEnoughBalanceForFunding); },
            };
            let reward_amount = match checked_div(fund_amount, s.participants_limit) {
                Some(amount) => amount,
                None => { return Err(Error::DefensiveErrorWhenDividing); },
            };
            Ok(
                Funded {
                    survey: Survey {
                        is_funded: true,
                        funded_amount: Some(fund_amount),
                        reward_amount: Some(reward_amount),
                        ..s
                    },
                    owner_balance: new_owner_balance,
                },
            )
        },
    }
}

/// Decides the registration of a participant for `survey`, where
/// `is_registered` says whether the participant is registered for it already.
pub fn register(survey: Option<Survey>, caller: AccountId, is_registered: bool) -> (r: Result<
    Survey,
    Error,
>)
    ensures
        r == register_outcome(survey, caller, is_registered),
        r is Ok && survey->0.wf() ==> r->Ok_0.wf(),
{
    match survey {
        None => Err(Error::SurveyNotCreated),
        Some(s) => {
            if s.owner_id != caller {
                return Err(Error::NotOwnerOfSurvey);
            }
            if !s.is_funded {
                return Err(Error::SurveyNotFunded);
            }
            if is_registered {
                return Err(Error::ParticipantAlreadyRegistered);
            }
            if s.number_participants >= s.participants_limit {
                return Err(Error::MaxNumberOfParticipantsReached);
            }
            if s.status != Status::Active {
                return Err(Error::SurveyIsNotActive);
            }
            Ok(Survey { number_participants: s.number_participants + 1, ..s })
        },
    }
}

/// Decides the payment of a participant of `survey`, where the two flags say
/// whether the participant is registered for it and was paid for it, and
/// `participant_balance` is what the ledger holds for the participant.
pub fn reward(
    survey: Option<Survey>,
    caller: AccountId,
    is_registered: bool,
    is_rewarded: bool,
    participant_balance: Balance,
) -> (r: Result<Rewarded, Error>)
    ensures
        r == reward_outcome(survey, caller, is_registered, is_rewarded, participant_balance),
{
    match survey {
        None => Err(Error::SurveyNotCreated),
        Some(s) => {
            if s.owner_id != caller {
                return Err(Error::NotOwnerOfSurvey);
            }
            if !s.is_funded {
                return Err(Error::SurveyNotFunded);
            }
            if !is_registered {
                return Err(Error::ParticipantNotRegistered);
            }
            if is_rewarded {
                return Err(Error::ParticipantAlreadyRewarded);
            }
            let reward_amount = match s.reward_amount {
                Some(amount) => amount,
                None => 0,
            };
            match checked_add(participant_balance, reward_amount) {
                Some(balance) => Ok(Rewarded { reward_amount, participant_balance: balance }),
                None => Err(Error::DefensiveUnexpectedOverflow),
            }
        },
    }
}

} // verus!
