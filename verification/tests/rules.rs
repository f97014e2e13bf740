use pallet_survey::rules::{self, Funded, Rewarded};
use pallet_survey::{Balance, Error, Status, Survey};

const OWNER: u64 = 1;
const STRANGER: u64 = 2;

fn unfunded(participants_limit: Balance) -> Survey {
    Survey {
        survey_id: 7,
        owner_id: OWNER,
        participants_limit,
        number_participants: 0,
        is_funded: false,
        funded_amount: None,
        reward_amount: None,
        status: Status::Active,
    }
}

fn funded(participants_limit: Balance, fund_amount: Balance) -> Survey {
    Survey {
        is_funded: true,
        funded_amount: Some(fund_amount),
        reward_amount: Some(fund_amount / participants_limit),
        ..unfunded(participants_limit)
    }
}

#[test]
fn create_gives_the_fresh_record() {
    assert_eq!(rules::create(None, OWNER, 7, 1000), Ok(unfunded(1000)));
    assert_eq!(Survey::new(7, OWNER, 1000), unfunded(1000));
}

#[test]
fn create_accepts_a_zero_limit() {
    assert_eq!(rules::create(None, OWNER, 7, 0), Ok(unfunded(0)));
}

#[test]
fn create_refuses_a_taken_identifier() {
    assert_eq!(
        rules::create(Some(unfunded(1000)), STRANGER, 7, 5),
        Err(Error::SurveyAlreadyCreated)
    );
    assert_eq!(
        rules::create(Some(unfunded(1000)), OWNER, 7, 1000),
        Err(Error::SurveyAlreadyCreated)
    );
}

#[test]
fn set_status_reaches_every_status_from_every_status() {
    let all = [Status::Active, Status::Paused, Status::Completed];
    for from in all {
        for to in all {
            let survey = Survey { status: from, ..funded(10, 100) };
            assert_eq!(
                rules::set_status(Some(survey), OWNER, to),
                Ok(Survey { status: to, ..survey })
            );
        }
    }
}

#[test]
fn set_status_refusals() {
    assert_eq!(rules::set_status(None, OWNER, Status::Paused), Err(Error::SurveyNotCreated));
    assert_eq!(
        rules::set_status(Some(unfunded(10)), STRANGER, Status::Paused),
        Err(Error::NotOwnerOfSurvey)
    );
}

#[test]
fn fund_divides_and_debits() {
    assert_eq!(
        rules::fund(Some(unfunded(1000)), OWNER, 10000, 1000000000),
        Ok(Funded { survey: funded(1000, 10000), owner_balance: 999990000 })
    );
    assert_eq!(funded(1000, 10000).reward_amount, Some(10));
}

#[test]
fn fund_rounds_the_reward_down() {
    let r = rules::fund(Some(unfunded(1000)), OWNER, 10999, 20000).unwrap();
    assert_eq!(r.survey.funded_amount, Some(10999));
    assert_eq!(r.survey.reward_amount, Some(10));
    assert_eq!(r.owner_balance, 9001);
    assert!(r.survey.is_funded);
}

#[test]
fn fund_with_exactly_the_limit_and_the_whole_balance() {
    let r = rules::fund(Some(unfunded(1000)), OWNER, 1000, 1000).unwrap();
    assert_eq!(r.survey.reward_amount, Some(1));
    assert_eq!(r.owner_balance, 0);
}

#[test]
fn fund_at_the_top_of_the_range() {
    let r = rules::fund(Some(unfunded(1)), OWNER, Balance::MAX, Balance::MAX).unwrap();
    assert_eq!(r.survey.reward_amount, Some(Balance::MAX));
    assert_eq!(r.owner_balance, 0);
    let r = rules::fund(Some(unfunded(Balance::MAX)), OWNER, Balance::MAX, Balance::MAX).unwrap();
    assert_eq!(r.survey.reward_amount, Some(1));
}

#[test]
fn fund_leaves_the_rest_of_the_record() {
    let survey = Survey { status: Status::Paused, ..unfunded(10) };
    let r = rules::fund(Some(survey), OWNER, 55, 60).unwrap();
    assert_eq!(
        r.survey,
        Survey {
            is_funded: true,
            funded_amount: Some(55),
            reward_amount: Some(5),
            ..survey
        }
    );
}

#[test]
fn fund_refusals_in_order() {
    // No survey.
    assert_eq!(rules::fund(None, OWNER, 10, 10), Err(Error::SurveyNotCreated));
    // A stranger, on a funded survey, with too little, without balance.
    assert_eq!(
        rules::fund(Some(funded(1000, 5000)), STRANGER, 1, 0),
        Err(Error::NotOwnerOfSurvey)
    );
    // The owner, on a funded survey, with too little, without balance.
    assert_eq!(
        rules::fund(Some(funded(1000, 5000)), OWNER, 1, 0),
        Err(Error::SurveyAlreadyFunded)
    );
    // Too little, and more than the balance.
    assert_eq!(
        rules::fund(Some(unfunded(1000)), OWNER, 999, 0),
        Err(Error::FundingInferiorNumberParticipants)
    );
    // Enough, but more than the balance.
    assert_eq!(
        rules::fund(Some(unfunded(1000)), OWNER, 1000, 999),
        Err(Error::NotEnoughBalanceForFunding)
    );
}

#[test]
fn fund_with_a_zero_limit_cannot_divide() {
    assert_eq!(
        rules::fund(Some(unfunded(0)), OWNER, 100, 100),
        Err(Error::DefensiveErrorWhenDividing)
    );
    assert_eq!(
        rules::fund(Some(unfunded(0)), OWNER, 0, 0),
        Err(Error::DefensiveErrorWhenDividing)
    );
    // The balance is looked at before the division.
    assert_eq!(
        rules::fund(Some(unfunded(0)), OWNER, 100, 99),
        Err(Error::NotEnoughBalanceForFunding)
    );
}

#[test]
fn register_counts_one_more() {
    let survey = funded(3, 30);
    let once = rules::register(Some(survey), OWNER, false).unwrap();
    assert_eq!(once, Survey { number_participants: 1, ..survey });
    let twice = rules::register(Some(once), OWNER, false).unwrap();
    assert_eq!(twice.number_participants, 2);
    let thrice = rules::register(Some(twice), OWNER, false).unwrap();
    assert_eq!(thrice.number_participants, 3);
    assert_eq!(
        rules::register(Some(thrice), OWNER, false),
        Err(Error::MaxNumberOfParticipantsReached)
    );
}

#[test]
fn register_refusals_in_order() {
    assert_eq!(rules::register(None, OWNER, true), Err(Error::SurveyNotCreated));
    let paused = Survey { status: Status::Paused, ..unfunded(1) };
    // A stranger, on an unfunded and paused survey, for a registered account.
    assert_eq!(rules::register(Some(paused), STRANGER, true), Err(Error::NotOwnerOfSurvey));
    // Unfunded comes before registered.
    assert_eq!(rules::register(Some(paused), OWNER, true), Err(Error::SurveyNotFunded));
    // Registered comes before full.
    let full = Survey { number_participants: 1, status: Status::Paused, ..funded(1, 10) };
    assert_eq!(rules::register(Some(full), OWNER, true), Err(Error::ParticipantAlreadyRegistered));
    // Full comes before inactive.
    assert_eq!(
        rules::register(Some(full), OWNER, false),
        Err(Error::MaxNumberOfParticipantsReached)
    );
    // Inactive comes last.
    let room = Survey { status: Status::Completed, ..funded(2, 10) };
    assert_eq!(rules::register(Some(room), OWNER, false), Err(Error::SurveyIsNotActive));
}

#[test]
fn reward_adds_the_share() {
    assert_eq!(
        rules::reward(Some(funded(1000, 10000)), OWNER, true, false, 1000000000),
        Ok(Rewarded { reward_amount: 10, participant_balance: 1000000010 })
    );
    assert_eq!(
        rules::reward(Some(funded(1000, 10000)), OWNER, true, false, 0),
        Ok(Rewarded { reward_amount: 10, participant_balance: 10 })
    );
}

#[test]
fn reward_does_not_ask_for_an_active_survey() {
    let completed = Survey { status: Status::Completed, ..funded(4, 400) };
    assert_eq!(
        rules::reward(Some(completed), OWNER, true, false, 1),
        Ok(Rewarded { reward_amount: 100, participant_balance: 101 })
    );
}

#[test]
fn reward_refusals_in_order() {
    assert_eq!(rules::reward(None, OWNER, false, true, 0), Err(Error::SurveyNotCreated));
    assert_eq!(
        rules::reward(Some(unfunded(10)), STRANGER, false, true, 0),
        Err(Error::NotOwnerOfSurvey)
    );
    assert_eq!(
        rules::reward(Some(unfunded(10)), OWNER, false, true, 0),
        Err(Error::SurveyNotFunded)
    );
    assert_eq!(
        rules::reward(Some(funded(10, 100)), OWNER, false, true, Balance::MAX),
        Err(Error::ParticipantNotRegistered)
    );
    assert_eq!(
        rules::reward(Some(funded(10, 100)), OWNER, true, true, Balance::MAX),
        Err(Error::ParticipantAlreadyRewarded)
    );
}

#[test]
fn reward_that_does_not_fit_is_refused() {
    assert_eq!(
        rules::reward(Some(funded(10, 100)), OWNER, true, false, Balance::MAX - 9),
        Err(Error::DefensiveUnexpectedOverflow)
    );
    assert_eq!(
        rules::reward(Some(funded(10, 100)), OWNER, true, false, Balance::MAX - 10),
        Ok(Rewarded { reward_amount: 10, participant_balance: Balance::MAX })
    );
}

#[test]
fn reward_of_a_record_without_an_amount_is_nothing() {
    let odd = Survey { is_funded: true, ..unfunded(10) };
    assert_eq!(
        rules::reward(Some(odd), OWNER, true, false, 5),
        Ok(Rewarded { reward_amount: 0, participant_balance: 5 })
    );
}

#[test]
fn defensive_errors_are_told_apart() {
    let all = [
        Error::SurveyNotCreated,
        Error::SurveyAlreadyCreated,
        Error::SurveyAlreadyFunded,
        Error::SurveyNotFunded,
        Error::FundingInferiorNumberParticipants,
        Error::ParticipantAlreadyRewarded,
        Error::ParticipantAlreadyRegistered,
        Error::ParticipantNotRegistered,
        Error::MaxNumberOfParticipantsReached,
        Error::NotEnoughBalanceForFunding,
        Error::NotOwnerOfSurvey,
        Error::SurveyIsNotActive,
        Error::DefensiveErrorWhenDividing,
        Error::DefensiveUnexpectedOverflow,
    ];
    for error in all {
        let expected = error == Error::DefensiveErrorWhenDividing
            || error == Error::DefensiveUnexpectedOverflow;
        assert_eq!(error.defensive(), expected);
    }
}
