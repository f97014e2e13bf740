//! A table of flags keyed by survey and account.

use std::collections::{HashMap, HashSet};
use vstd::prelude::*;
use crate::survey::{AccountId, SurveyId};

verus! {

broadcast use vstd::std_specs::hash::group_hash_axioms;

/// A flag for each pair of a survey and an account. Every flag starts unset,
/// and one that is set stays set: the table has no operation that clears it.
///
/// The table is viewed as the set of the pairs whose flag is set.
#[derive(Clone, PartialEq, Eq, Debug)]
pub struct FlagTable {
    by_survey: HashMap<SurveyId, HashSet<AccountId>>,
}

impl View for FlagTable {
    type V = Set<(SurveyId, AccountId)>;

    closed spec fn view(&self) -> Set<(SurveyId, AccountId)> {
        Set::new(
            |pair: (SurveyId, AccountId)|
                self.by_survey@.contains_key(pair.0) && self.by_survey@[pair.0]@.contains(pair.1),
        )
    }
}

impl FlagTable {
    /// The table with no flag set.
    pub fn new() -> (table: FlagTable)
        ensures
            table@ == Set::<(SurveyId, AccountId)>::empty(),
    {
        FlagTable { by_survey: HashMap::new() }
    }

    /// Whether the flag of `account` under `survey_id` is set.
    pub fn get(&self, survey_id: SurveyId, account: AccountId) -> (flag: bool)
        ensures
            flag == self@.contains((survey_id, account)),
    {
        match self.by_survey.get(&survey_id) {
            Some(accounts) => accounts.contains(&account),
            None => false,
        }
    }

    /// Sets the flag of `account` under `survey_id`, and no other.
    pub fn set(&mut self, survey_id: SurveyId, account: AccountId)
        ensures
            final(self)@ == old(self)@.insert((survey_id, account)),
    {
        let mut accounts = match self.by_survey.remove(&survey_id) {
            Some(accounts) => accounts,
            None => HashSet::new(),
        };
        accounts.insert(account);
        self.by_survey.insert(survey_id, accounts);
    }
}

} // verus!
