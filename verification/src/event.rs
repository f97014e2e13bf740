//! What a successful operation announces.

use vstd::prelude::*;
use crate::survey::{AccountId, Balance, Status, SurveyId};

verus! {

/// The announcement of one successful operation.
#[derive(Clone, Copy, PartialEq, Eq, Debug)]
pub enum Event {
    /// A survey was created.
    SurveyCreated { survey_id: SurveyId, owner_id: AccountId },
    /// A survey was funded.
    SurveyFunded { survey_id: SurveyId, funded_amount: Balance, funder_id: AccountId },
    /// A participant was paid.
    RewardClaimed { survey_id: SurveyId, participant_id: AccountId, reward_amount: Balance },
    /// A participant was registered.
    NewParticipantRegistered { survey_id: SurveyId, participant_id: AccountId },
    /// The status of a survey was set.
    SurveyStatusUpdated { survey_id: SurveyId, new_status: Status },
}

} // verus!
