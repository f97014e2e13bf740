//! What follows from the rules, proved of every state and every argument.

use vstd::prelude::*;
use crate::error::Error;
use crate::rules::{
    create_outcome, fund_outcome, register_outcome, reward_of, reward_outcome, set_status_outcome,
    Funded, Rewarded,
};
use crate::state::{Call, State};
use crate::survey::{reward_share, AccountId, Balance, Status, Survey, SurveyId};

verus! {

/// Whether `caller` owns the survey `survey_id` of `state`.
pub open spec fn owns(state: State, caller: AccountId, survey_id: SurveyId) -> bool {
    state.surveys.contains_key(survey_id) && state.surveys[survey_id].owner_id == caller
}

/// With a positive limit and an amount that reaches it, the reward is at least
/// one, and all the rewards together do not pass the amount.
pub proof fn lemma_reward_share_bounds(funded_amount: Balance, participants_limit: Balance)
    requires
        participants_limit > 0,
        funded_amount >= participants_limit,
    ensures
        reward_share(funded_amount, participants_limit) == funded_amount / participants_limit,
        reward_share(funded_amount, participants_limit) >= 1,
        reward_share(funded_amount, participants_limit) * participants_limit <= funded_amount,
{
    let f = funded_amount as int;
    let l = participants_limit as int;
    assert(0 <= f / l <= f && (f / l) * l <= f && f / l >= 1) by (nonlinear_arith)
        requires
            l > 0,
            f >= l,
    ;
}

/// Funding succeeds where the owner funds an unfunded survey of a positive
/// limit with an amount that reaches the limit and that the owner's balance
/// covers. The survey is then funded with that amount, the reward is the
/// amount divided by the limit, rounded down, and the owner is left with the
/// balance less the amount.
pub proof fn lemma_funding_fixes_reward(
    state: State,
    caller: AccountId,
    survey_id: SurveyId,
    fund_amount: Balance,
    owner_balance: Balance,
)
    requires
        owns(state, caller, survey_id),
        !state.surveys[survey_id].is_funded,
        state.surveys[survey_id].participants_limit > 0,
        fund_amount >= state.surveys[survey_id].participants_limit,
        owner_balance >= fund_amount,
    ensures
        fund_outcome(state.survey(survey_id), caller, fund_amount, owner_balance) is Ok,
        ({
            let funded = fund_outcome(
                state.survey(survey_id),
                caller,
                fund_amount,
                owner_balance,
            )->Ok_0;
            let limit = state.surveys[survey_id].participants_limit;
            let after = state.fund_survey(caller, survey_id, fund_amount, owner_balance);
            &&& funded.owner_balance == owner_balance - fund_amount
            &&& funded.survey.is_funded
            &&& funded.survey.funded_amount == Some(fund_amount)
            &&& funded.survey.reward_amount == Some((fund_amount / limit) as Balance)
            &&& after.survey(survey_id) == Some(funded.survey)
        }),
{
}

/// Whatever a first creation under an identifier did, a second one under the
/// same identifier is refused with `SurveyAlreadyCreated`, announces nothing and
/// changes nothing.
pub proof fn lemma_second_creation_refused(
    state: State,
    first_caller: AccountId,
    first_limit: Balance,
    second_caller: AccountId,
    second_limit: Balance,
    survey_id: SurveyId,
)
    ensures
        ({
            let after = state.create_survey(first_caller, survey_id, first_limit);
            &&& create_outcome(after.survey(survey_id), second_caller, survey_id, second_limit)
                == Err::<Survey, Error>(Error::SurveyAlreadyCreated)
            &&& after.create_survey(second_caller, survey_id, second_limit) == after
        }),
{
}

/// After a successful funding, the owner's next funding of the same survey is
/// refused with `SurveyAlreadyFunded`, whatever the amount and the balance, and
/// changes nothing: the funded amount and the reward stay as the first funding
/// set them.
pub proof fn lemma_second_funding_refused(
    state: State,
    caller: AccountId,
    survey_id: SurveyId,
    first_amount: Balance,
    first_balance: Balance,
    second_amount: Balance,
    second_balance: Balance,
)
    requires
        fund_outcome(state.survey(survey_id), caller, first_amount, first_balance) is Ok,
    ensures
        ({
            let after = state.fund_survey(caller, survey_id, first_amount, first_balance);
            &&& fund_outcome(after.survey(survey_id), caller, second_amount, second_balance)
                == Err::<Funded, Error>(Error::SurveyAlreadyFunded)
            &&& after.fund_survey(caller, survey_id, second_amount, second_balance) == after
            &&& after.surveys[survey_id].funded_amount == Some(first_amount)
            &&& after.surveys[survey_id].reward_amount == Some(
                reward_share(first_amount, state.surveys[survey_id].participants_limit),
            )
        }),
{
}

/// Before the survey is funded, its owner's registrations are refused with
/// `SurveyNotFunded`.
pub proof fn lemma_registration_needs_funding(
    state: State,
    caller: AccountId,
    survey_id: SurveyId,
    participant_id: AccountId,
)
    requires
        owns(state, caller, survey_id),
        !state.surveys[survey_id].is_funded,
    ensures
        register_outcome(
            state.survey(survey_id),
            caller,
            state.is_participant(survey_id, participant_id),
        ) == Err::<Survey, Error>(Error::SurveyNotFunded),
        state.register_participant(caller, survey_id, participant_id) == state,
{
}

/// The state after `caller` asked to register the accounts of `participants`
/// for `survey_id`, one after another.
pub open spec fn register_all(
    state: State,
    caller: AccountId,
    survey_id: SurveyId,
    participants: Seq<AccountId>,
) -> State
    decreases participants.len(),
{
    if participants.len() == 0 {
        state
    } else {
        register_all(state, caller, survey_id, participants.drop_last()).register_participant(
            caller,
            survey_id,
            participants.last(),
        )
    }
}

/// Whether the owner can register a run of accounts for the survey: it is
/// funded and active, the accounts differ from one another, and none of them is
/// registered yet.
pub open spec fn can_register_all(
    state: State,
    caller: AccountId,
    survey_id: SurveyId,
    participants: Seq<AccountId>,
) -> bool {
    &&& state.wf()
    &&& owns(state, caller, survey_id)
    &&& state.surveys[survey_id].is_funded
    &&& state.surveys[survey_id].status == Status::Active
    &&& participants.no_duplicates()
    &&& forall|i: int|
        0 <= i < participants.len() ==> !state.is_participant(survey_id, #[trigger] participants[i])
}

/// As long as the limit leaves room, every registration of a run succeeds: the
/// registration that follows the first `i` accounts of the run is accepted, and
/// the run as a whole raises the participant count by its length and changes
/// nothing else of the record.
pub proof fn lemma_registrations_up_to_limit(
    state: State,
    caller: AccountId,
    survey_id: SurveyId,
    participants: Seq<AccountId>,
)
    requires
        can_register_all(state, caller, survey_id, participants),
        state.surveys[survey_id].number_participants + participants.len()
            <= state.surveys[survey_id].participants_limit,
    ensures
        forall|i: int|
            0 <= i < participants.len() ==> {
                let before = #[trigger] register_all(
                    state,
                    caller,
                    survey_id,
                    participants.take(i),
                );
                register_outcome(
                    before.survey(survey_id),
                    caller,
                    before.is_participant(survey_id, participants[i]),
                ) is Ok
            },
        ({
            let after = register_all(state, caller, survey_id, participants);
            &&& after.wf()
            &&& after.surveys.contains_key(survey_id)
            &&& after.surveys[survey_id] == Survey {
                number_participants: (state.surveys[survey_id].number_participants
                    + participants.len()) as Balance,
                ..state.surveys[survey_id]
            }
            &&& forall|account: AccountId| #[trigger]
                after.is_participant(survey_id, account) <==> (state.is_participant(
                    survey_id,
                    account,
                ) || participants.contains(account))
        }),
    decreases participants.len(),
{
    if participants.len() > 0 {
        let n = participants.len() as int;
        let front = participants.drop_last();
        let last = participants.last();
        lemma_registrations_up_to_limit(state, caller, survey_id, front);
        let before = register_all(state, caller, survey_id, front);
        let after = register_all(state, caller, survey_id, participants);
        // The last account is not among those before it, so it is not registered yet.
        assert(!front.contains(last));
        assert(!before.is_participant(survey_id, last));
        before.lemma_register_participant_wf(caller, survey_id, last);
        assert forall|account: AccountId| #[trigger]
            after.is_participant(survey_id, account) <==> (state.is_participant(
                survey_id,
                account,
            ) || participants.contains(account)) by {
            assert(before.is_participant(survey_id, account) <==> (state.is_participant(
                survey_id,
                account,
            ) || front.contains(account)));
            assert(participants.contains(account) <==> (front.contains(account) || account
                == last)) by {
                assert(participants == front.push(last));
                if participants.contains(account) {
                    let j = choose|j: int| 0 <= j < n && participants[j] == account;
                    if j < n - 1 {
                        assert(front[j] == account);
                    }
                }
                if front.contains(account) {
                    let j = choose|j: int| 0 <= j < n - 1 && front[j] == account;
                    assert(participants[j] == account);
                }
                if account == last {
                    assert(participants[n - 1] == account);
                }
            }
        }
        assert forall|i: int| 0 <= i < n implies {
            let earlier = #[trigger] register_all(state, caller, survey_id, participants.take(i));
            register_outcome(
                earlier.survey(survey_id),
                caller,
                earlier.is_participant(survey_id, participants[i]),
            ) is Ok
        } by {
            if i < n - 1 {
                assert(participants.take(i) == front.take(i));
            } else {
                assert(participants.take(i) == front);
            }
        }
    }
}

/// Once a survey counts as many participants as its limit, the owner's
/// registration of one more account is refused with
/// `MaxNumberOfParticipantsReached` and changes nothing.
pub proof fn lemma_registration_past_limit_refused(
    state: State,
    caller: AccountId,
    survey_id: SurveyId,
    participant_id: AccountId,
)
    requires
        owns(state, caller, survey_id),
        state.surveys[survey_id].is_funded,
        state.surveys[survey_id].number_participants
            == state.surveys[survey_id].participants_limit,
        !state.is_participant(survey_id, participant_id),
    ensures
        register_outcome(
            state.survey(survey_id),
            caller,
            state.is_participant(survey_id, participant_id),
        ) == Err::<Survey, Error>(Error::MaxNumberOfParticipantsReached),
        state.register_participant(caller, survey_id, participant_id) == state,
{
}

/// On a freshly funded, active survey the owner registers as many accounts as
/// the limit says, each with success, and one more is then refused with
/// `MaxNumberOfParticipantsReached`.
pub proof fn lemma_limit_many_registrations(
    state: State,
    caller: AccountId,
    survey_id: SurveyId,
    participants: Seq<AccountId>,
    one_more: AccountId,
)
    requires
        can_register_all(state, caller, survey_id, participants),
        state.surveys[survey_id].number_participants == 0,
        participants.len() == state.surveys[survey_id].participants_limit,
        !state.is_participant(survey_id, one_more),
        !participants.contains(one_more),
    ensures
        forall|i: int|
            0 <= i < participants.len() ==> {
                let before = #[trigger] register_all(
                    state,
                    caller,
                    survey_id,
                    participants.take(i),
                );
                register_outcome(
                    before.survey(survey_id),
                    caller,
                    before.is_participant(survey_id, participants[i]),
                ) is Ok
            },
        ({
            let full = register_all(state, caller, survey_id, participants);
            &&& full.surveys[survey_id].number_participants
                == state.surveys[survey_id].participants_limit
            &&& register_outcome(
                full.survey(survey_id),
                caller,
                full.is_participant(survey_id, one_more),
            ) == Err::<Survey, Error>(Error::MaxNumberOfParticipantsReached)
            &&& full.register_participant(caller, survey_id, one_more) == full
        }),
{
    lemma_registrations_up_to_limit(state, caller, survey_id, participants);
    let full = register_all(state, caller, survey_id, participants);
    lemma_registration_past_limit_refused(full, caller, survey_id, one_more);
}

/// After a successful registration, the owner's next registration of the same
/// account for the same survey is refused with `ParticipantAlreadyRegistered`
/// and changes nothing.
pub proof fn lemma_second_registration_refused(
    state: State,
    caller: AccountId,
    survey_id: SurveyId,
    participant_id: AccountId,
)
    requires
        register_outcome(
            state.survey(survey_id),
            caller,
            state.is_participant(survey_id, participant_id),
        ) is Ok,
    ensures
        ({
            let after = state.register_participant(caller, survey_id, participant_id);
            &&& register_outcome(
                after.survey(survey_id),
                caller,
                after.is_participant(survey_id, participant_id),
            ) == Err::<Survey, Error>(Error::ParticipantAlreadyRegistered)
            &&& after.register_participant(caller, survey_id, participant_id) == after
        }),
{
}

/// The owner's reward of an account that is not registered for the funded
/// survey is refused with `ParticipantNotRegistered` and changes nothing.
pub proof fn lemma_reward_needs_registration(
    state: State,
    caller: AccountId,
    survey_id: SurveyId,
    participant_id: AccountId,
    participant_balance: Balance,
)
    requires
        owns(state, caller, survey_id),
        state.surveys[survey_id].is_funded,
        !state.is_participant(survey_id, participant_id),
    ensures
        reward_outcome(
            state.survey(survey_id),
            caller,
            state.is_participant(survey_id, participant_id),
            state.is_participant_already_rewarded(survey_id, participant_id),
            participant_balance,
        ) == Err::<Rewarded, Error>(Error::ParticipantNotRegistered),
        state.reward_participant(caller, survey_id, participant_id, participant_balance) == state,
{
}

/// A participant is paid once. A successful reward raises the participant's
/// balance by the reward of the survey; the owner's next reward of the same
/// participant for the same survey is refused with `ParticipantAlreadyRewarded`,
/// whatever the balance, and so asks for no second change of it.
pub proof fn lemma_second_reward_refused(
    state: State,
    caller: AccountId,
    survey_id: SurveyId,
    participant_id: AccountId,
    first_balance: Balance,
    second_balance: Balance,
)
    requires
        reward_outcome(
            state.survey(survey_id),
            caller,
            state.is_participant(survey_id, participant_id),
            state.is_participant_already_rewarded(survey_id, participant_id),
            first_balance,
        ) is Ok,
    ensures
        ({
            let paid = reward_outcome(
                state.survey(survey_id),
                caller,
                state.is_participant(survey_id, participant_id),
                state.is_participant_already_rewarded(survey_id, participant_id),
                first_balance,
            )->Ok_0;
            let after = state.reward_participant(caller, survey_id, participant_id, first_balance);
            let again = reward_outcome(
                after.survey(survey_id),
                caller,
                after.is_participant(survey_id, participant_id),
                after.is_participant_already_rewarded(survey_id, participant_id),
                second_balance,
            );
            &&& paid.reward_amount == reward_of(state.surveys[survey_id])
            &&& paid.participant_balance == first_balance + paid.reward_amount
            &&& again == Err::<Rewarded, Error>(Error::ParticipantAlreadyRewarded)
            &&& after.reward_participant(caller, survey_id, participant_id, second_balance)
                == after
        }),
{
}

/// Funding, registration, reward and a change of status of an existing survey
/// are refused with `NotOwnerOfSurvey` where the caller is not its owner, and
/// change nothing.
pub proof fn lemma_only_owner_acts(
    state: State,
    caller: AccountId,
    survey_id: SurveyId,
    fund_amount: Balance,
    balance: Balance,
    participant_id: AccountId,
    new_status: Status,
)
    requires
        state.surveys.contains_key(survey_id),
        state.surveys[survey_id].owner_id != caller,
    ensures
        fund_outcome(state.survey(survey_id), caller, fund_amount, balance) == Err::<
            Funded,
            Error,
        >(Error::NotOwnerOfSurvey),
        state.fund_survey(caller, survey_id, fund_amount, balance) == state,
        register_outcome(
            state.survey(survey_id),
            caller,
            state.is_participant(survey_id, participant_id),
        ) == Err::<Survey, Error>(Error::NotOwnerOfSurvey),
        state.register_participant(caller, survey_id, participant_id) == state,
        reward_outcome(
            state.survey(survey_id),
            caller,
            state.is_participant(survey_id, participant_id),
            state.is_participant_already_rewarded(survey_id, participant_id),
            balance,
        ) == Err::<Rewarded, Error>(Error::NotOwnerOfSurvey),
        state.reward_participant(caller, survey_id, participant_id, balance) == state,
        set_status_outcome(state.survey(survey_id), caller, new_status) == Err::<Survey, Error>(
            Error::NotOwnerOfSurvey,
        ),
        state.set_survey_status(caller, survey_id, new_status) == state,
{
}

/// The owner sets any status after any other: the change succeeds whatever the
/// status was, and the record then has the new status and is otherwise as
/// before.
pub proof fn lemma_status_freely_set(
    state: State,
    caller: AccountId,
    survey_id: SurveyId,
    new_status: Status,
)
    requires
        owns(state, caller, survey_id),
    ensures
        set_status_outcome(state.survey(survey_id), caller, new_status) == Ok::<Survey, Error>(
            Survey { status: new_status, ..state.surveys[survey_id] },
        ),
        state.set_survey_status(caller, survey_id, new_status).survey(survey_id) == Some(
            Survey { status: new_status, ..state.surveys[survey_id] },
        ),
{
}

/// A registration succeeds only while the survey is active: whether or not the
/// survey is funded, the registration for a paused or completed survey is
/// refused and changes nothing.
pub proof fn lemma_registration_needs_active(
    state: State,
    caller: AccountId,
    survey_id: SurveyId,
    participant_id: AccountId,
)
    requires
        state.surveys.contains_key(survey_id),
        state.surveys[survey_id].status != Status::Active,
    ensures
        register_outcome(
            state.survey(survey_id),
            caller,
            state.is_participant(survey_id, participant_id),
        ) is Err,
        state.register_participant(caller, survey_id, participant_id) == state,
{
}

/// Funding is accepted exactly where the survey exists, the caller owns it, it
/// is unfunded, its limit is positive, the amount reaches the limit and the
/// owner's balance covers the amount.
pub proof fn lemma_funding_accepted_iff(
    survey: Option<Survey>,
    caller: AccountId,
    fund_amount: Balance,
    owner_balance: Balance,
)
    ensures
        fund_outcome(survey, caller, fund_amount, owner_balance) is Ok <==> {
            &&& survey is Some
            &&& survey->0.owner_id == caller
            &&& !survey->0.is_funded
            &&& survey->0.participants_limit > 0
            &&& fund_amount >= survey->0.participants_limit
            &&& owner_balance >= fund_amount
        },
{
}

/// A registration is accepted exactly where the survey exists, the caller owns
/// it, it is funded and active, it has fewer participants than its limit, and
/// the account is not registered for it yet.
pub proof fn lemma_registration_accepted_iff(
    survey: Option<Survey>,
    caller: AccountId,
    is_registered: bool,
)
    ensures
        register_outcome(survey, caller, is_registered) is Ok <==> {
            &&& survey is Some
            &&& survey->0.owner_id == caller
            &&& survey->0.is_funded
            &&& !is_registered
            &&& survey->0.number_participants < survey->0.participants_limit
            &&& survey->0.status == Status::Active
        },
{
}

/// A reward is accepted exactly where the survey exists, the caller owns it,
/// it is funded, the account is registered for it and not paid yet, and the
/// account's balance plus the reward fits in a `Balance`.
pub proof fn lemma_reward_accepted_iff(
    survey: Option<Survey>,
    caller: AccountId,
    is_registered: bool,
    is_rewarded: bool,
    participant_balance: Balance,
)
    ensures
        reward_outcome(survey, caller, is_registered, is_rewarded, participant_balance) is Ok <==> {
            &&& survey is Some
            &&& survey->0.owner_id == caller
            &&& survey->0.is_funded
            &&& is_registered
            &&& !is_rewarded
            &&& participant_balance + reward_of(survey->0) <= Balance::MAX
        },
{
}

/// In a well-formed state the reward of a funded survey is at least one, and
/// paying it to as many participants as the limit allows does not pass what the
/// survey was funded with.
pub proof fn lemma_rewards_within_funding(state: State, survey_id: SurveyId)
    requires
        state.wf(),
        state.surveys.contains_key(survey_id),
        state.surveys[survey_id].is_funded,
    ensures
        reward_of(state.surveys[survey_id]) >= 1,
        reward_of(state.surveys[survey_id]) * state.surveys[survey_id].participants_limit
            <= state.surveys[survey_id].funded_amount->0,
        reward_of(state.surveys[survey_id]) * state.surveys[survey_id].number_participants
            <= state.surveys[survey_id].funded_amount->0,
{
    let survey = state.surveys[survey_id];
    lemma_reward_share_bounds(survey.funded_amount->0, survey.participants_limit);
    let r = reward_of(survey) as int;
    let l = survey.participants_limit as int;
    let n = survey.number_participants as int;
    assert(r * n <= r * l) by (nonlinear_arith)
        requires
            0 <= n <= l,
            0 <= r,
    ;
}

/// What grew once and grows again has grown.
pub proof fn lemma_grows_into_transitive(first: State, second: State, third: State)
    requires
        first.grows_into(second),
        second.grows_into(third),
    ensures
        first.grows_into(third),
{
}

/// No call takes anything back: whatever it is asked, the registry leaves
/// every survey in place with its identifier, owner, limit and funding, never
/// lowers a participant count, clears no flag and keeps the events announced
/// before.
pub proof fn lemma_call_only_grows(state: State, call: Call)
    ensures
        state.grows_into(state.apply(call)),
{
    if let Call::CreateAndFundSurvey {
        caller,
        survey_id,
        participants_limit,
        fund_amount,
        owner_balance,
    } = call {
        let created = state.create_survey(caller, survey_id, participants_limit);
        let funded = created.fund_survey(caller, survey_id, fund_amount, owner_balance);
        assert(state.grows_into(created));
        assert(created.grows_into(funded));
    }
}

/// Nor does any run of calls.
pub proof fn lemma_run_only_grows(state: State, calls: Seq<Call>)
    ensures
        state.grows_into(state.run(calls)),
    decreases calls.len(),
{
    if calls.len() > 0 {
        let before = state.run(calls.drop_last());
        lemma_run_only_grows(state, calls.drop_last());
        lemma_call_only_grows(before, calls.last());
        lemma_grows_into_transitive(state, before, state.run(calls));
    }
}

} // verus!
