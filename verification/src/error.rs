//! Why an operation was refused.

use vstd::prelude::*;

verus! {

/// The reasons for which an operation is refused. A refused operation changes
/// nothing.
#[derive(Clone, Copy, PartialEq, Eq, Debug)]
pub enum Error {
    /// The survey has not been created.
    SurveyNotCreated,
    /// A survey with this identifier exists already.
    SurveyAlreadyCreated,
    /// The survey has been funded before. A survey is funded once.
    SurveyAlreadyFunded,
    /// The survey has not been funded yet.
    SurveyNotFunded,
    /// The funding amount is below the participant limit.
    FundingInferiorNumberParticipants,
    /// The participant has been paid before.
    ParticipantAlreadyRewarded,
    /// The participant is registered already.
    ParticipantAlreadyRegistered,
    /// The participant is not registered for this survey.
    ParticipantNotRegistered,
    /// The survey has as many participants as its limit allows.
    MaxNumberOfParticipantsReached,
    /// The owner's balance is below the funding amount.
    NotEnoughBalanceForFunding,
    /// The caller is not the owner of the survey.
    NotOwnerOfSurvey,
    /// The survey is paused or completed.
    SurveyIsNotActive,
    /// The reward could not be computed: the participant limit is zero.
    DefensiveErrorWhenDividing,
    /// The participant's balance plus the reward does not fit in a `Balance`.
    DefensiveUnexpectedOverflow,
}

impl Error {
    /// Whether the error marks a state that the earlier checks are meant to
    /// exclude; a host should log these.
    pub open spec fn is_defensive(&self) -> bool {
        *self is DefensiveErrorWhenDividing || *self is DefensiveUnexpectedOverflow
    }

    /// Tells the two defensive errors from those that a caller mends by
    /// correcting the arguments.
    pub fn defensive(&self) -> (r: bool)
        ensures
            r == self.is_defensive(),
    {
        match self {
            Error::DefensiveErrorWhenDividing => true,
            Error::DefensiveUnexpectedOverflow => true,
            _ => false,
        }
    }
}

} // verus!
