//! The registry and the participation tables as mathematical values, and the
//! operations as functions from one state to the next.
//!
//! What an operation returns is given by the rule of the same operation in
//! [`crate::rules`], applied to what the state holds; what it leaves behind is
//! given here. An operation that is refused leaves the state as it was.

use vstd::prelude::*;
use crate::event::Event;
use crate::rules::{
    create_outcome, fund_outcome, register_outcome, reward_outcome, set_status_outcome,
};
use crate::survey::{AccountId, Balance, Status, Survey, SurveyId};

verus! {

/// Everything that the operations read and write, but the balances, which
/// belong to the host's ledger.
#[verifier::ext_equal]
pub struct State {
    /// The surveys, by identifier.
    pub surveys: Map<SurveyId, Survey>,
    /// The pairs of a survey and an account registered for it.
    pub participants: Set<(SurveyId, AccountId)>,
    /// The pairs of a survey and an account paid for it.
    pub participants_rewarded: Set<(SurveyId, AccountId)>,
    /// The events announced so far, oldest first.
    pub events: Seq<Event>,
}

/// One request to the registry, with what the host reports of its ledger
/// where the operation moves value.
pub enum Call {
    CreateSurvey { caller: AccountId, survey_id: SurveyId, participants_limit: Balance },
    FundSurvey {
        caller: AccountId,
        survey_id: SurveyId,
        fund_amount: Balance,
        owner_balance: Balance,
    },
    CreateAndFundSurvey {
        caller: AccountId,
        survey_id: SurveyId,
        participants_limit: Balance,
        fund_amount: Balance,
        owner_balance: Balance,
    },
    RegisterParticipant { caller: AccountId, survey_id: SurveyId, participant_id: AccountId },
    RewardParticipant {
        caller: AccountId,
        survey_id: SurveyId,
        participant_id: AccountId,
        participant_balance: Balance,
    },
    SetSurveyStatus { caller: AccountId, survey_id: SurveyId, new_status: Status },
}

impl State {
    /// No survey, no participant, no event.
    pub open spec fn empty() -> State {
        State {
            surveys: Map::empty(),
            participants: Set::empty(),
            participants_rewarded: Set::empty(),
            events: Seq::empty(),
        }
    }

    /// The record under `survey_id`, if there is one.
    pub open spec fn survey(self, survey_id: SurveyId) -> Option<Survey> {
        if self.surveys.contains_key(survey_id) {
            Some(self.surveys[survey_id])
        } else {
            None
        }
    }

    /// Whether `account` is registered for `survey_id`.
    pub open spec fn is_participant(self, survey_id: SurveyId, account: AccountId) -> bool {
        self.participants.contains((survey_id, account))
    }

    /// Whether `account` has been paid for `survey_id`.
    pub open spec fn is_participant_already_rewarded(
        self,
        survey_id: SurveyId,
        account: AccountId,
    ) -> bool {
        self.participants_rewarded.contains((survey_id, account))
    }

    /// The registrations for `survey_id`.
    pub open spec fn registered(self, survey_id: SurveyId) -> Set<(SurveyId, AccountId)> {
        self.participants.filter(|pair: (SurveyId, AccountId)| pair.0 == survey_id)
    }

    /// What holds of every state that the operations reach from the empty one.
    ///
    /// - The registrations are finite in number.
    /// - Each record is well formed, is stored under its own identifier, and
    ///   counts the registrations for its survey.
    /// - Only funded surveys have participants.
    /// - Only registered participants have been paid.
    pub open spec fn wf(self) -> bool {
        &&& self.participants.finite()
        &&& self.participants_rewarded.subset_of(self.participants)
        &&& forall|survey_id: SurveyId| #[trigger]
            self.surveys.contains_key(survey_id) ==> {
                &&& self.surveys[survey_id].wf()
                &&& self.surveys[survey_id].survey_id == survey_id
                &&& self.surveys[survey_id].number_participants == self.registered(survey_id).len()
            }
        &&& forall|survey_id: SurveyId, account: AccountId| #[trigger]
            self.participants.contains((survey_id, account)) ==> {
                &&& self.surveys.contains_key(survey_id)
                &&& self.surveys[survey_id].is_funded
            }
    }

    /// Whether `later` holds all that this state holds: every survey is still
    /// there, with its identifier, owner and limit, with at least as many
    /// participants, and with its funding once it has one; every flag that is
    /// set is still set; every event is still announced, in its place.
    pub open spec fn grows_into(self, later: State) -> bool {
        &&& forall|survey_id: SurveyId| #[trigger]
            self.surveys.contains_key(survey_id) ==> {
                let before = self.surveys[survey_id];
                let after = later.surveys[survey_id];
                &&& later.surveys.contains_key(survey_id)
                &&& after.survey_id == before.survey_id
                &&& after.owner_id == before.owner_id
                &&& after.participants_limit == before.participants_limit
                &&& after.number_participants >= before.number_participants
                &&& before.is_funded ==> {
                    &&& after.is_funded
                    &&& after.funded_amount == before.funded_amount
                    &&& after.reward_amount == before.reward_amount
                }
            }
        &&& self.participants.subset_of(later.participants)
        &&& self.participants_rewarded.subset_of(later.participants_rewarded)
        &&& self.events.is_prefix_of(later.events)
    }

    /// The state after `caller` asked to create `survey_id`.
    pub open spec fn create_survey(
        self,
        caller: AccountId,
        survey_id: SurveyId,
        participants_limit: Balance,
    ) -> State {
        match create_outcome(self.survey(survey_id), caller, survey_id, participants_limit) {
            Ok(survey) => State {
                surveys: self.surveys.insert(survey_id, survey),
                events: self.events.push(Event::SurveyCreated { survey_id, owner_id: caller }),
                ..self
            },
            Err(_) => self,
        }
    }

    /// The state after `caller` asked to set the status of `survey_id`.
    pub open spec fn set_survey_status(
        self,
        caller: AccountId,
        survey_id: SurveyId,
        new_status: Status,
    ) -> State {
        match set_status_outcome(self.survey(survey_id), caller, new_status) {
            Ok(survey) => State {
                surveys: self.surveys.insert(survey_id, survey),
                events: self.events.push(Event::SurveyStatusUpdated { survey_id, new_status }),
                ..self
            },
            Err(_) => self,
        }
    }

    /// The state after `caller`, whose balance is `owner_balance`, asked to fund
    /// `survey_id` with `fund_amount`.
    pub open spec fn fund_survey(
        self,
        caller: AccountId,
        survey_id: SurveyId,
        fund_amount: Balance,
        owner_balance: Balance,
    ) -> State {
        match fund_outcome(self.survey(survey_id), caller, fund_amount, owner_balance) {
            Ok(funded) => State {
                surveys: self.surveys.insert(survey_id, funded.survey),
                events: self.events.push(
                    Event::SurveyFunded {
                        survey_id,
                        funded_amount: fund_amount,
                        funder_id: caller,
                    },
                ),
                ..self
            },
            Err(_) => self,
        }
    }

    /// The state after `caller` asked to create `survey_id` and to fund it:
    /// that of the creation, followed by the funding where the creation
    /// succeeded. A creation whose funding is refused stays.
    pub open spec fn create_and_fund_survey(
        self,
        caller: AccountId,
        survey_id: SurveyId,
        participants_limit: Balance,
        fund_amount: Balance,
        owner_balance: Balance,
    ) -> State {
        match create_outcome(self.survey(survey_id), caller, survey_id, participants_limit) {
            Ok(_) => self.create_survey(caller, survey_id, participants_limit).fund_survey(
                caller,
                survey_id,
                fund_amount,
                owner_balance,
            ),
            Err(_) => self,
        }
    }

    /// The state after `caller` asked to register `participant_id` for
    /// `survey_id`.
    pub open spec fn register_participant(
        self,
        caller: AccountId,
        survey_id: SurveyId,
        participant_id: AccountId,
    ) -> State {
        match register_outcome(
            self.survey(survey_id),
            caller,
            self.is_participant(survey_id, participant_id),
        ) {
            Ok(survey) => State {
                surveys: self.surveys.insert(survey_id, survey),
                participants: self.participants.insert((survey_id, participant_id)),
                events: self.events.push(
                    Event::NewParticipantRegistered { survey_id, participant_id },
                ),
                ..self
            },
            Err(_) => self,
        }
    }

    /// The state after `caller` asked to pay `participant_id`, whose balance is
    /// `participant_balance`, for `survey_id`.
    pub open spec fn reward_participant(
        self,
        caller: AccountId,
        survey_id: SurveyId,
        participant_id: AccountId,
        participant_balance: Balance,
    ) -> State {
        match reward_outcome(
            self.survey(survey_id),
            caller,
            self.is_participant(survey_id, participant_id),
            self.is_participant_already_rewarded(survey_id, participant_id),
            participant_balance,
        ) {
            Ok(paid) => State {
                participants_rewarded: self.participants_rewarded.insert(
                    (survey_id, participant_id),
                ),
                events: self.events.push(
                    Event::RewardClaimed {
                        survey_id,
                        participant_id,
                        reward_amount: paid.reward_amount,
                    },
                ),
                ..self
            },
            Err(_) => self,
        }
    }

    /// The state after `call`.
    pub open spec fn apply(self, call: Call) -> State {
        match call {
            Call::CreateSurvey { caller, survey_id, participants_limit } => self.create_survey(
                caller,
                survey_id,
                participants_limit,
            ),
            Call::FundSurvey { caller, survey_id, fund_amount, owner_balance } => self.fund_survey(
                caller,
                survey_id,
                fund_amount,
                owner_balance,
            ),
            Call::CreateAndFundSurvey {
                caller,
                survey_id,
                participants_limit,
                fund_amount,
                owner_balance,
            } => self.create_and_fund_survey(
                caller,
                survey_id,
                participants_limit,
                fund_amount,
                owner_balance,
            ),
            Call::RegisterParticipant {
                caller,
                survey_id,
                participant_id,
            } => self.register_participant(caller, survey_id, participant_id),
            Call::RewardParticipant {
                caller,
                survey_id,
                participant_id,
                participant_balance,
            } => self.reward_participant(caller, survey_id, participant_id, participant_balance),
            Call::SetSurveyStatus { caller, survey_id, new_status } => self.set_survey_status(
                caller,
                survey_id,
                new_status,
            ),
        }
    }

    /// The state after the calls of `calls`, one after another.
    pub open spec fn run(self, calls: Seq<Call>) -> State
        decreases calls.len(),
    {
        if calls.len() == 0 {
            self
        } else {
            self.run(calls.drop_last()).apply(calls.last())
        }
    }

    /// The empty state is well formed.
    pub proof fn lemma_empty_wf()
        ensures
            State::empty().wf(),
    {
    }

    /// No account is registered for a survey that does not exist.
    proof fn lemma_no_survey_no_participant(self, survey_id: SurveyId)
        requires
            self.wf(),
            !self.surveys.contains_key(survey_id),
        ensures
            self.registered(survey_id).len() == 0,
    {
        assert forall|pair: (SurveyId, AccountId)| !self.registered(survey_id).contains(
            pair,
        ) by {
            if self.registered(survey_id).contains(pair) {
                assert(self.participants.contains((pair.0, pair.1)));
            }
        }
        assert(self.registered(survey_id) =~= Set::<(SurveyId, AccountId)>::empty());
    }

    /// Creation keeps the state well formed.
    pub proof fn lemma_create_survey_wf(
        self,
        caller: AccountId,
        survey_id: SurveyId,
        participants_limit: Balance,
    )
        requires
            self.wf(),
        ensures
            self.create_survey(caller, survey_id, participants_limit).wf(),
    {
        if !self.surveys.contains_key(survey_id) {
            self.lemma_no_survey_no_participant(survey_id);
        }
    }

    /// A change of status keeps the state well formed.
    pub proof fn lemma_set_survey_status_wf(
        self,
        caller: AccountId,
        survey_id: SurveyId,
        new_status: Status,
    )
        requires
            self.wf(),
        ensures
            self.set_survey_status(caller, survey_id, new_status).wf(),
    {
    }

    /// Funding keeps the state well formed.
    pub proof fn lemma_fund_survey_wf(
        self,
        caller: AccountId,
        survey_id: SurveyId,
        fund_amount: Balance,
        owner_balance: Balance,
    )
        requires
            self.wf(),
        ensures
            self.fund_survey(caller, survey_id, fund_amount, owner_balance).wf(),
    {
    }

    /// Creation followed by funding keeps the state well formed.
    pub proof fn lemma_create_and_fund_survey_wf(
        self,
        caller: AccountId,
        survey_id: SurveyId,
        participants_limit: Balance,
        fund_amount: Balance,
        owner_balance: Balance,
    )
        requires
            self.wf(),
        ensures
            self.create_and_fund_survey(
                caller,
                survey_id,
                participants_limit,
                fund_amount,
                owner_balance,
            ).wf(),
    {
        self.lemma_create_survey_wf(caller, survey_id, participants_limit);
        self.create_survey(caller, survey_id, participants_limit).lemma_fund_survey_wf(
            caller,
            survey_id,
            fund_amount,
            owner_balance,
        );
    }

    /// Registration keeps the state well formed: the record of the survey
    /// counts one more, and one more account is registered for it.
    pub proof fn lemma_register_participant_wf(
        self,
        caller: AccountId,
        survey_id: SurveyId,
        participant_id: AccountId,
    )
        requires
            self.wf(),
        ensures
            self.register_participant(caller, survey_id, participant_id).wf(),
    {
        let next = self.register_participant(caller, survey_id, participant_id);
        if next != self {
            assert forall|id: SurveyId| #[trigger]
                next.surveys.contains_key(id) implies next.surveys[id].number_participants
                == next.registered(id).len() by {
                self.participants.lemma_len_filter(|p: (SurveyId, AccountId)| p.0 == id);
                if id == survey_id {
                    assert(next.registered(id) =~= self.registered(id).insert(
                        (survey_id, participant_id),
                    ));
                } else {
                    assert(next.registered(id) =~= self.registered(id));
                }
            }
        }
    }

    /// A reward keeps the state well formed.
    pub proof fn lemma_reward_participant_wf(
        self,
        caller: AccountId,
        survey_id: SurveyId,
        participant_id: AccountId,
        participant_balance: Balance,
    )
        requires
            self.wf(),
        ensures
            self.reward_participant(caller, survey_id, participant_id, participant_balance).wf(),
    {
    }

    /// Every call keeps the state well formed.
    pub proof fn lemma_apply_wf(self, call: Call)
        requires
            self.wf(),
        ensures
            self.apply(call).wf(),
    {
        match call {
            Call::CreateSurvey {
                caller,
                survey_id,
                participants_limit,
            } => self.lemma_create_survey_wf(caller, survey_id, participants_limit),
            Call::FundSurvey {
                caller,
                survey_id,
                fund_amount,
                owner_balance,
            } => self.lemma_fund_survey_wf(caller, survey_id, fund_amount, owner_balance),
            Call::CreateAndFundSurvey {
                caller,
                survey_id,
                participants_limit,
                fund_amount,
                owner_balance,
            } => self.lemma_create_and_fund_survey_wf(
                caller,
                survey_id,
                participants_limit,
                fund_amount,
                owner_balance,
            ),
            Call::RegisterParticipant {
                caller,
                survey_id,
                participant_id,
            } => self.lemma_register_participant_wf(caller, survey_id, participant_id),
            Call::RewardParticipant {
                caller,
                survey_id,
                participant_id,
                participant_balance,
            } => self.lemma_reward_participant_wf(
                caller,
                survey_id,
                participant_id,
                participant_balance,
            ),
            Call::SetSurveyStatus {
                caller,
                survey_id,
                new_status,
            } => self.lemma_set_survey_status_wf(caller, survey_id, new_status),
        }
    }

    /// Whatever is asked of a well-formed state, in whatever order, the state
    /// stays well formed. So every state reached from the empty one is.
    pub proof fn lemma_run_wf(self, calls: Seq<Call>)
        requires
            self.wf(),
        ensures
            self.run(calls).wf(),
        decreases calls.len(),
    {
        if calls.len() > 0 {
            self.lemma_run_wf(calls.drop_last());
            self.run(calls.drop_last()).lemma_apply_wf(calls.last());
        }
    }
}

} // verus!
