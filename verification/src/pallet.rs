//! The survey registry kept in memory.

use std::collections::HashMap;
use vstd::prelude::*;
use crate::error::Error;
use crate::event::Event;
use crate::flags::FlagTable;
use crate::rules;
use crate::rules::{
    create_outcome, fund_outcome, register_outcome, reward_outcome, set_status_outcome, Funded,
    Rewarded,
};
use crate::state::State;
use crate::survey::{AccountId, Balance, Status, Survey, SurveyId};

verus! {

broadcast use vstd::std_specs::hash::group_hash_axioms;

/// The surveys, the two participation tables and the events announced and not
/// yet taken.
///
/// Each operation names its caller, and only the owner of a survey may act on
/// it. The balances are the host's: an operation that moves value takes the
/// balance it needs as an argument and returns the balance to be set.
///
/// A refused operation returns its error and changes nothing.
#[derive(Clone, PartialEq, Eq, Debug)]
pub struct Pallet {
    surveys: HashMap<SurveyId, Survey>,
    participants: FlagTable,
    participants_rewarded: FlagTable,
    events: Vec<Event>,
}

impl View for Pallet {
    type V = State;

    closed spec fn view(&self) -> State {
        State {
            surveys: self.surveys@,
            participants: self.participants@,
            participants_rewarded: self.participants_rewarded@,
            events: self.events@,
        }
    }
}

impl Pallet {
    /// Whether the state is one that the operations keep: see [`State::wf`].
    pub open spec fn wf(&self) -> bool {
        self@.wf()
    }

    /// A registry without surveys.
    pub fn new() -> (pallet: Pallet)
        ensures
            pallet@ == State::empty(),
            pallet.wf(),
    {
        Pallet {
            surveys: HashMap::new(),
            participants: FlagTable::new(),
            participants_rewarded: FlagTable::new(),
            events: Vec::new(),
        }
    }

    /// The record of `survey_id`, if it has been created.
    pub fn get_survey(&self, survey_id: SurveyId) -> (survey: Option<Survey>)
        ensures
            survey == self@.survey(survey_id),
    {
        match self.surveys.get(&survey_id) {
            Some(survey) => Some(*survey),
            None => None,
        }
    }

    /// Whether `participant_id` is registered for `survey_id`.
    pub fn is_participant(&self, survey_id: SurveyId, participant_id: AccountId) -> (flag: bool)
        ensures
            flag == self@.is_participant(survey_id, participant_id),
    {
        self.participants.get(survey_id, participant_id)
    }

    /// Whether `participant_id` has been paid for `survey_id`.
    pub fn is_participant_already_rewarded(
        &self,
        survey_id: SurveyId,
        participant_id: AccountId,
    ) -> (flag: bool)
        ensures
            flag == self@.is_participant_already_rewarded(survey_id, participant_id),
    {
        self.participants_rewarded.get(survey_id, participant_id)
    }

    /// The events announced since the last call of [`Pallet::take_events`],
    /// oldest first.
    pub fn events(&self) -> (events: &Vec<Event>)
        ensures
            events@ == self@.events,
    {
        &self.events
    }

    /// Hands out the events announced so far, oldest first, and forgets them.
    pub fn take_events(&mut self) -> (events: Vec<Event>)
        ensures
            events@ == old(self)@.events,
            final(self)@ == (State { events: Seq::empty(), ..old(self)@ }),
            old(self).wf() ==> final(self).wf(),
    {
        let mut events: Vec<Event> = Vec::new();
        std::mem::swap(&mut self.events, &mut events);
        events
    }

    /// Appends `event` to the events.
    fn deposit_event(&mut self, event: Event)
        ensures
            final(self)@ == (State { events: old(self)@.events.push(event), ..old(self)@ }),
    {
        self.events.push(event);
    }

    /// Creates the survey `survey_id` for `caller`, who becomes its owner.
    ///
    /// Refused with `SurveyAlreadyCreated` where the identifier is taken.
    /// Otherwise the fresh record is stored and returned, and `SurveyCreated` is
    /// announced.
    pub fn create_survey(
        &mut self,
        caller: AccountId,
        survey_id: SurveyId,
        participants_limit: Balance,
    ) -> (r: Result<Survey, Error>)
        ensures
            old(self).wf() ==> final(self).wf(),
            r == create_outcome(
                old(self)@.survey(survey_id),
                caller,
                survey_id,
                participants_limit,
            ),
            final(self)@ == old(self)@.create_survey(caller, survey_id, participants_limit),
    {
        proof {
            if old(self).wf() {
                old(self)@.lemma_create_survey_wf(caller, survey_id, participants_limit);
            }
        }
        match rules::create(self.get_survey(survey_id), caller, survey_id, participants_limit) {
            Ok(survey) => {
                self.surveys.insert(survey_id, survey);
                self.deposit_event(Event::SurveyCreated { survey_id, owner_id: caller });
                Ok(survey)
            },
            Err(error) => Err(error),
        }
    }

    /// Funds the survey `survey_id` with `fund_amount` out of the balance of
    /// `caller`, which the host reports as `owner_balance`.
    ///
    /// Refused, in this order, with `SurveyNotCreated`, `NotOwnerOfSurvey`,
    /// `SurveyAlreadyFunded`, `FundingInferiorNumberParticipants` where the
    /// amount is below the participant limit, `NotEnoughBalanceForFunding` where
    /// it is above `owner_balance`, and `DefensiveErrorWhenDividing` where the
    /// limit is zero. Otherwise the record is marked funded with the amount and
    /// the reward per participant, `SurveyFunded` is announced, and the result
    /// holds the record and the balance that the host is to set for the owner.
    pub fn fund_survey(
        &mut self,
        caller: AccountId,
        survey_id: SurveyId,
        fund_amount: Balance,
        owner_balance: Balance,
    ) -> (r: Result<Funded, Error>)
        ensures
            old(self).wf() ==> final(self).wf(),
            r == fund_outcome(old(self)@.survey(survey_id), caller, fund_amount, owner_balance),
            final(self)@ == old(self)@.fund_survey(caller, survey_id, fund_amount, owner_balance),
    {
        proof {
            if old(self).wf() {
                old(self)@.lemma_fund_survey_wf(caller, survey_id, fund_amount, owner_balance);
            }
        }
        match rules::fund(self.get_survey(survey_id), caller, fund_amount, owner_balance) {
            Ok(funded) => {
                self.surveys.insert(survey_id, funded.survey);
                self.deposit_event(
                    Event::SurveyFunded {
                        survey_id,
                        funded_amount: fund_amount,
                        funder_id: caller,
                    },
                );
                Ok(funded)
            },
            Err(error) => Err(error),
        }
    }

    /// Creates the survey `survey_id` for `caller` and funds it.
    ///
    /// Where the creation is refused, nothing is funded. Where the funding is
    /// refused, the survey stays created and unfunded, and its creation stays
    /// announced.
    pub fn create_and_fund_survey(
        &mut self,
        caller: AccountId,
        survey_id: SurveyId,
        participants_limit: Balance,
        fund_amount: Balance,
        owner_balance: Balance,
    ) -> (r: Result<Funded, Error>)
        ensures
            old(self).wf() ==> final(self).wf(),
            r == rules::create_and_fund_outcome(
                old(self)@.survey(survey_id),
                caller,
                survey_id,
                participants_limit,
                fund_amount,
                owner_balance,
            ),
            final(self)@ == old(self)@.create_and_fund_survey(
                caller,
                survey_id,
                participants_limit,
                fund_amount,
                owner_balance,
            ),
    {
        match self.create_survey(caller, survey_id, participants_limit) {
            Ok(_) => self.fund_survey(caller, survey_id, fund_amount, owner_balance),
            Err(error) => Err(error),
        }
    }

    /// Registers `participant_id` for the survey `survey_id`.
    ///
    /// Refused, in this order, with `SurveyNotCreated`, `NotOwnerOfSurvey`,
    /// `SurveyNotFunded`, `ParticipantAlreadyRegistered`,
    /// `MaxNumberOfParticipantsReached` and `SurveyIsNotActive`. Otherwise the
    /// participant is marked registered, the participant count of the record
    /// goes up by one, `NewParticipantRegistered` is announced and the record is
    /// returned.
    pub fn register_participant(
        &mut self,
        caller: AccountId,
        survey_id: SurveyId,
        participant_id: AccountId,
    ) -> (r: Result<Survey, Error>)
        ensures
            old(self).wf() ==> final(self).wf(),
            r == register_outcome(
                old(self)@.survey(survey_id),
                caller,
                old(self)@.is_participant(survey_id, participant_id),
            ),
            final(self)@ == old(self)@.register_participant(caller, survey_id, participant_id),
    {
        proof {
            if old(self).wf() {
                old(self)@.lemma_register_participant_wf(caller, survey_id, participant_id);
            }
        }
        let is_registered = self.is_participant(survey_id, participant_id);
        match rules::register(self.get_survey(survey_id), caller, is_registered) {
            Ok(survey) => {
                self.participants.set(survey_id, participant_id);
                self.surveys.insert(survey_id, survey);
                self.deposit_event(Event::NewParticipantRegistered { survey_id, participant_id });
                Ok(survey)
            },
            Err(error) => Err(error),
        }
    }

    /// Pays `participant_id`, whose balance the host reports as
    /// `participant_balance`, the reward of the survey `survey_id`.
    ///
    /// Refused, in this order, with `SurveyNotCreated`, `NotOwnerOfSurvey`,
    /// `SurveyNotFunded`, `ParticipantNotRegistered`,
    /// `ParticipantAlreadyRewarded`, and `DefensiveUnexpectedOverflow` where the
    /// balance plus the reward does not fit. Otherwise the participant is marked
    /// paid, `RewardClaimed` is announced, and the result holds the reward and
    /// the balance that the host is to set for the participant.
    pub fn reward_participant(
        &mut self,
        caller: AccountId,
        survey_id: SurveyId,
        participant_id: AccountId,
        participant_balance: Balance,
    ) -> (r: Result<Rewarded, Error>)
        ensures
            old(self).wf() ==> final(self).wf(),
            r == reward_outcome(
                old(self)@.survey(survey_id),
                caller,
                old(self)@.is_participant(survey_id, participant_id),
                old(self)@.is_participant_already_rewarded(survey_id, participant_id),
                participant_balance,
            ),
            final(self)@ == old(self)@.reward_participant(
                caller,
                survey_id,
                participant_id,
                participant_balance,
            ),
    {
        proof {
            if old(self).wf() {
                old(self)@.lemma_reward_participant_wf(
                    caller,
                    survey_id,
                    participant_id,
                    participant_balance,
                );
            }
        }
        let is_registered = self.is_participant(survey_id, participant_id);
        let is_rewarded = self.is_participant_already_rewarded(survey_id, participant_id);
        match rules::reward(
            self.get_survey(survey_id),
            caller,
            is_registered,
            is_rewarded,
            participant_balance,
        ) {
            Ok(paid) => {
                self.participants_rewarded.set(survey_id, participant_id);
                self.deposit_event(
                    Event::RewardClaimed {
                        survey_id,
                        participant_id,
                        reward_amount: paid.reward_amount,
                    },
                );
                Ok(paid)
            },
            Err(error) => Err(error),
        }
    }

    /// Sets the status of the survey `survey_id` to `new_status`, whatever it
    /// was before.
    ///
    /// Refused with `SurveyNotCreated` and `NotOwnerOfSurvey`. Otherwise the
    /// status is written, `SurveyStatusUpdated` is announced and the record is
    /// returned.
    pub fn set_survey_status(
        &mut self,
        caller: AccountId,
        survey_id: SurveyId,
        new_status: Status,
    ) -> (r: Result<Survey, Error>)
        ensures
            old(self).wf() ==> final(self).wf(),
            r == set_status_outcome(old(self)@.survey(survey_id), caller, new_status),
            final(self)@ == old(self)@.set_survey_status(caller, survey_id, new_status),
    {
        proof {
            if old(self).wf() {
                old(self)@.lemma_set_survey_status_wf(caller, survey_id, new_status);
            }
        }
        match rules::set_status(self.get_survey(survey_id), caller, new_status) {
            Ok(survey) => {
                self.surveys.insert(survey_id, survey);
                self.deposit_event(Event::SurveyStatusUpdated { survey_id, new_status });
                Ok(survey)
            },
            Err(error) => Err(error),
        }
    }
}

} // verus!
