use pallet_survey::flags::FlagTable;
use pallet_survey::rules::{Funded, Rewarded};
use pallet_survey::{Balance, Error, Event, Pallet, Status, Survey, SurveyId};

const OWNER: u64 = 1;
const ALICE: u64 = 2;
const BOB: u64 = 3;
const SURVEY: SurveyId = 11;
const OTHER_SURVEY: SurveyId = 12;

fn funded_survey(participants_limit: Balance, fund_amount: Balance) -> Pallet {
    let mut pallet = Pallet::new();
    pallet
        .create_and_fund_survey(OWNER, SURVEY, participants_limit, fund_amount, 1000000000)
        .unwrap();
    pallet
}

#[test]
fn a_new_registry_is_empty() {
    let pallet = Pallet::new();
    assert_eq!(pallet.get_survey(0), None);
    assert!(!pallet.is_participant(0, OWNER));
    assert!(!pallet.is_participant_already_rewarded(0, OWNER));
    assert!(pallet.events().is_empty());
}

#[test]
fn survey_of_a_thousand_funded_with_ten_thousand() {
    let mut pallet = Pallet::new();
    let created = pallet.create_survey(OWNER, SURVEY, 1000).unwrap();
    assert_eq!(created, Survey::new(SURVEY, OWNER, 1000));

    let funded = pallet.fund_survey(OWNER, SURVEY, 10000, 50000).unwrap();
    assert_eq!(funded.survey.reward_amount, Some(10));
    assert_eq!(funded.survey.funded_amount, Some(10000));
    assert_eq!(funded.owner_balance, 40000);
    assert_eq!(pallet.get_survey(SURVEY), Some(funded.survey));

    let registered = pallet.register_participant(OWNER, SURVEY, ALICE).unwrap();
    assert_eq!(registered.number_participants, 1);
    assert_eq!(pallet.get_survey(SURVEY).unwrap().number_participants, 1);

    let balance: Balance = 777;
    let paid = pallet.reward_participant(OWNER, SURVEY, ALICE, balance).unwrap();
    assert_eq!(paid, Rewarded { reward_amount: 10, participant_balance: balance + 10 });
    assert!(pallet.is_participant_already_rewarded(SURVEY, ALICE));

    let before = pallet.clone();
    assert_eq!(
        pallet.reward_participant(OWNER, SURVEY, ALICE, paid.participant_balance),
        Err(Error::ParticipantAlreadyRewarded)
    );
    assert_eq!(pallet, before);
}

#[test]
fn funding_below_the_limit_leaves_the_survey_unfunded() {
    let mut pallet = Pallet::new();
    pallet.create_survey(OWNER, OTHER_SURVEY, 1000).unwrap();
    let before = pallet.clone();
    assert_eq!(
        pallet.fund_survey(OWNER, OTHER_SURVEY, 100, 1000000000),
        Err(Error::FundingInferiorNumberParticipants)
    );
    assert_eq!(pallet, before);
    let survey = pallet.get_survey(OTHER_SURVEY).unwrap();
    assert!(!survey.is_funded);
    assert_eq!(survey.funded_amount, None);
    assert_eq!(survey.reward_amount, None);
}

#[test]
fn second_creation_is_refused_without_an_event() {
    let mut pallet = Pallet::new();
    pallet.create_survey(OWNER, SURVEY, 10).unwrap();
    assert_eq!(pallet.events().len(), 1);
    assert_eq!(pallet.create_survey(ALICE, SURVEY, 20), Err(Error::SurveyAlreadyCreated));
    assert_eq!(pallet.events().len(), 1);
    assert_eq!(pallet.get_survey(SURVEY), Some(Survey::new(SURVEY, OWNER, 10)));
}

#[test]
fn second_funding_keeps_the_first_amounts() {
    let mut pallet = funded_survey(10, 100);
    let first = pallet.get_survey(SURVEY).unwrap();
    assert_eq!(
        pallet.fund_survey(OWNER, SURVEY, 5000, 1000000000),
        Err(Error::SurveyAlreadyFunded)
    );
    assert_eq!(pallet.get_survey(SURVEY), Some(first));
    assert_eq!(first.funded_amount, Some(100));
    assert_eq!(first.reward_amount, Some(10));
}

#[test]
fn limit_many_registrations_and_one_more() {
    let mut pallet = funded_survey(3, 30);
    for (i, participant) in [10u64, 11, 12].into_iter().enumerate() {
        let survey = pallet.register_participant(OWNER, SURVEY, participant).unwrap();
        assert_eq!(survey.number_participants, i as Balance + 1);
        assert!(pallet.is_participant(SURVEY, participant));
    }
    let before = pallet.clone();
    assert_eq!(
        pallet.register_participant(OWNER, SURVEY, 13),
        Err(Error::MaxNumberOfParticipantsReached)
    );
    assert_eq!(pallet, before);
    assert!(!pallet.is_participant(SURVEY, 13));
}

#[test]
fn a_registration_is_for_one_survey_only() {
    let mut pallet = funded_survey(3, 30);
    pallet.create_and_fund_survey(OWNER, OTHER_SURVEY, 3, 30, 1000).unwrap();
    pallet.register_participant(OWNER, SURVEY, ALICE).unwrap();
    assert!(pallet.is_participant(SURVEY, ALICE));
    assert!(!pallet.is_participant(OTHER_SURVEY, ALICE));
    assert!(!pallet.is_participant(SURVEY, BOB));
    assert_eq!(pallet.get_survey(OTHER_SURVEY).unwrap().number_participants, 0);
    assert_eq!(
        pallet.reward_participant(OWNER, OTHER_SURVEY, ALICE, 0),
        Err(Error::ParticipantNotRegistered)
    );
    pallet.reward_participant(OWNER, SURVEY, ALICE, 0).unwrap();
    assert!(pallet.is_participant_already_rewarded(SURVEY, ALICE));
    assert!(!pallet.is_participant_already_rewarded(OTHER_SURVEY, ALICE));
}

#[test]
fn a_stranger_changes_nothing() {
    let mut pallet = funded_survey(3, 30);
    pallet.register_participant(OWNER, SURVEY, ALICE).unwrap();
    pallet.create_survey(OWNER, OTHER_SURVEY, 5).unwrap();
    let before = pallet.clone();
    assert_eq!(pallet.fund_survey(ALICE, OTHER_SURVEY, 50, 1000), Err(Error::NotOwnerOfSurvey));
    assert_eq!(pallet.register_participant(ALICE, SURVEY, BOB), Err(Error::NotOwnerOfSurvey));
    assert_eq!(pallet.reward_participant(ALICE, SURVEY, ALICE, 0), Err(Error::NotOwnerOfSurvey));
    assert_eq!(
        pallet.set_survey_status(ALICE, SURVEY, Status::Completed),
        Err(Error::NotOwnerOfSurvey)
    );
    assert_eq!(pallet, before);
}

#[test]
fn status_moves_in_any_order() {
    let mut pallet = Pallet::new();
    pallet.create_survey(OWNER, SURVEY, 5).unwrap();
    let order = [
        Status::Completed,
        Status::Active,
        Status::Paused,
        Status::Paused,
        Status::Completed,
        Status::Paused,
        Status::Active,
    ];
    for status in order {
        let survey = pallet.set_survey_status(OWNER, SURVEY, status).unwrap();
        assert_eq!(survey.status, status);
        assert_eq!(
            pallet.get_survey(SURVEY),
            Some(Survey { status, ..Survey::new(SURVEY, OWNER, 5) })
        );
        assert_eq!(
            pallet.events().last(),
            Some(&Event::SurveyStatusUpdated { survey_id: SURVEY, new_status: status })
        );
    }
    assert_eq!(
        pallet.set_survey_status(OWNER, OTHER_SURVEY, Status::Paused),
        Err(Error::SurveyNotCreated)
    );
}

#[test]
fn registration_resumes_when_the_survey_is_active_again() {
    let mut pallet = funded_survey(3, 30);
    pallet.set_survey_status(OWNER, SURVEY, Status::Paused).unwrap();
    assert_eq!(pallet.register_participant(OWNER, SURVEY, ALICE), Err(Error::SurveyIsNotActive));
    pallet.set_survey_status(OWNER, SURVEY, Status::Active).unwrap();
    assert_eq!(pallet.register_participant(OWNER, SURVEY, ALICE).unwrap().number_participants, 1);
}

#[test]
fn an_unfunded_paused_survey_reports_not_funded() {
    let mut pallet = Pallet::new();
    pallet.create_survey(OWNER, SURVEY, 5).unwrap();
    pallet.set_survey_status(OWNER, SURVEY, Status::Paused).unwrap();
    assert_eq!(pallet.register_participant(OWNER, SURVEY, ALICE), Err(Error::SurveyNotFunded));
}

#[test]
fn a_paused_survey_still_pays() {
    let mut pallet = funded_survey(3, 30);
    pallet.register_participant(OWNER, SURVEY, ALICE).unwrap();
    pallet.set_survey_status(OWNER, SURVEY, Status::Completed).unwrap();
    assert_eq!(
        pallet.reward_participant(OWNER, SURVEY, ALICE, 5),
        Ok(Rewarded { reward_amount: 10, participant_balance: 15 })
    );
}

#[test]
fn create_and_fund_stops_at_a_taken_identifier() {
    let mut pallet = Pallet::new();
    pallet.create_survey(ALICE, SURVEY, 5).unwrap();
    let before = pallet.clone();
    assert_eq!(
        pallet.create_and_fund_survey(OWNER, SURVEY, 10, 100, 1000),
        Err(Error::SurveyAlreadyCreated)
    );
    assert_eq!(pallet, before);
}

#[test]
fn create_and_fund_keeps_the_survey_when_funding_is_refused() {
    let mut pallet = Pallet::new();
    assert_eq!(
        pallet.create_and_fund_survey(OWNER, SURVEY, 1000, 100, 1000000000),
        Err(Error::FundingInferiorNumberParticipants)
    );
    assert_eq!(pallet.get_survey(SURVEY), Some(Survey::new(SURVEY, OWNER, 1000)));
    assert_eq!(
        pallet.events().clone(),
        vec![Event::SurveyCreated { survey_id: SURVEY, owner_id: OWNER }]
    );
    // The survey can be funded later.
    assert_eq!(pallet.fund_survey(OWNER, SURVEY, 2000, 5000).unwrap().owner_balance, 3000);
}

#[test]
fn create_and_fund_returns_what_funding_returns() {
    let mut pallet = Pallet::new();
    let funded = pallet.create_and_fund_survey(OWNER, SURVEY, 4, 10, 100).unwrap();
    assert_eq!(
        funded,
        Funded {
            survey: Survey {
                is_funded: true,
                funded_amount: Some(10),
                reward_amount: Some(2),
                ..Survey::new(SURVEY, OWNER, 4)
            },
            owner_balance: 90,
        }
    );
    assert_eq!(pallet.get_survey(SURVEY), Some(funded.survey));
}

#[test]
fn a_zero_limit_survey_cannot_be_funded() {
    let mut pallet = Pallet::new();
    pallet.create_survey(OWNER, SURVEY, 0).unwrap();
    let before = pallet.clone();
    assert_eq!(pallet.fund_survey(OWNER, SURVEY, 10, 100), Err(Error::DefensiveErrorWhenDividing));
    assert_eq!(pallet, before);
}

#[test]
fn a_reward_that_overflows_marks_nobody_paid() {
    let mut pallet = funded_survey(1, 10);
    pallet.register_participant(OWNER, SURVEY, ALICE).unwrap();
    let before = pallet.clone();
    assert_eq!(
        pallet.reward_participant(OWNER, SURVEY, ALICE, Balance::MAX),
        Err(Error::DefensiveUnexpectedOverflow)
    );
    assert_eq!(pallet, before);
    assert_eq!(
        pallet.reward_participant(OWNER, SURVEY, ALICE, 0),
        Ok(Rewarded { reward_amount: 10, participant_balance: 10 })
    );
}

#[test]
fn events_come_in_order_and_are_taken_once() {
    let mut pallet = funded_survey(2, 20);
    pallet.register_participant(OWNER, SURVEY, ALICE).unwrap();
    pallet.reward_participant(OWNER, SURVEY, ALICE, 0).unwrap();
    pallet.set_survey_status(OWNER, SURVEY, Status::Completed).unwrap();
    let expected = vec![
        Event::SurveyCreated { survey_id: SURVEY, owner_id: OWNER },
        Event::SurveyFunded { survey_id: SURVEY, funded_amount: 20, funder_id: OWNER },
        Event::NewParticipantRegistered { survey_id: SURVEY, participant_id: ALICE },
        Event::RewardClaimed { survey_id: SURVEY, participant_id: ALICE, reward_amount: 10 },
        Event::SurveyStatusUpdated { survey_id: SURVEY, new_status: Status::Completed },
    ];
    assert_eq!(pallet.events().clone(), expected);
    let survey = pallet.get_survey(SURVEY);
    assert_eq!(pallet.take_events(), expected);
    assert!(pallet.events().is_empty());
    assert!(pallet.take_events().is_empty());
    // Nothing but the events is gone.
    assert_eq!(pallet.get_survey(SURVEY), survey);
    assert!(pallet.is_participant(SURVEY, ALICE));
    assert!(pallet.is_participant_already_rewarded(SURVEY, ALICE));
}

#[test]
fn flags_start_unset_and_are_set_one_by_one() {
    let mut table = FlagTable::new();
    assert!(!table.get(1, 1));
    table.set(1, 1);
    assert!(table.get(1, 1));
    assert!(!table.get(1, 2));
    assert!(!table.get(2, 1));
    table.set(1, 2);
    table.set(2, 1);
    table.set(1, 1);
    assert!(table.get(1, 1));
    assert!(table.get(1, 2));
    assert!(table.get(2, 1));
    assert!(!table.get(2, 2));
}
