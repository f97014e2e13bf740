//! The survey record and the plain types it is made of.

use vstd::prelude::*;

verus! {

/// Identifier of a survey, chosen by whoever creates it.
pub type SurveyId = u128;

/// An account of the host ledger.
pub type AccountId = u64;

/// An amount of the ledger's token. Participant counts use the same type,
/// because the participant limit is the divisor of the funded amount.
pub type Balance = u128;

/// Lifecycle status of a survey. The owner may move between any two of them.
#[derive(Clone, Copy, PartialEq, Eq, Debug, Structural)]
pub enum Status {
    Active,
    Paused,
    Completed,
}

/// One survey, as the registry keeps it.
#[derive(Clone, Copy, PartialEq, Eq, Debug)]
pub struct Survey {
    pub survey_id: SurveyId,
    pub owner_id: AccountId,
    pub participants_limit: Balance,
    pub number_participants: Balance,
    pub is_funded: bool,
    pub funded_amount: Option<Balance>,
    pub reward_amount: Option<Balance>,
    pub status: Status,
}

/// The share of `funded_amount` that each of `participants_limit` participants
/// gets: the quotient rounded down. The remainder is not paid to anybody.
pub open spec fn reward_share(funded_amount: Balance, participants_limit: Balance) -> Balance
    recommends
        participants_limit > 0,
{
    (funded_amount / participants_limit) as Balance
}

impl Survey {
    /// The record that creation stores: nobody registered, nothing funded, active.
    pub open spec fn fresh(
        survey_id: SurveyId,
        owner_id: AccountId,
        participants_limit: Balance,
    ) -> Survey {
        Survey {
            survey_id,
            owner_id,
            participants_limit,
            number_participants: 0,
            is_funded: false,
            funded_amount: None,
            reward_amount: None,
            status: Status::Active,
        }
    }

    /// What holds of every record that the operations of this crate produce.
    ///
    /// - The participant count never passes the limit, and stays at zero until
    ///   the survey is funded.
    /// - The two amounts are present exactly when the survey is funded.
    /// - A funded survey has a positive limit, was funded with at least that
    ///   limit, and its reward is the funded amount divided by the limit.
    pub open spec fn wf(&self) -> bool {
        &&& self.number_participants <= self.participants_limit
        &&& self.is_funded <==> self.funded_amount is Some
        &&& self.is_funded <==> self.reward_amount is Some
        &&& !self.is_funded ==> self.number_participants == 0
        &&& self.is_funded ==> {
            &&& self.participants_limit > 0
            &&& self.funded_amount->0 >= self.participants_limit
            &&& self.reward_amount->0 == reward_share(
                self.funded_amount->0,
                self.participants_limit,
            )
        }
    }

    /// A new survey of `owner_id`.
    pub fn new(survey_id: SurveyId, owner_id: AccountId, participants_limit: Balance) -> (survey:
        Survey)
        ensures
            survey == Survey::fresh(survey_id, owner_id, participants_limit),
            survey.wf(),
    {
        Survey {
            survey_id,
            owner_id,
            participants_limit,
            number_participants: 0,
            is_funded: false,
            funded_amount: None,
            reward_amount: None,
            status: Status::Active,
        }
    }
}

} // verus!
