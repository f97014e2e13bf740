//! Surveys with an escrowed reward.
//!
//! An owner creates a survey with a participant limit, funds it once with an
//! amount that is divided evenly among the participants to come, registers
//! participants and pays each registered participant their share once. Only
//! the owner of a survey acts on it.
//!
//! - [`survey`], [`error`], [`event`]: the record and the plain types.
//! - [`rules`]: what each operation decides, on one record.
//! - [`state`]: the registry as a mathematical value, and each operation as a
//!   function from one state to the next.
//! - [`flags`]: a table of flags by survey and account.
//! - [`pallet`]: the registry kept in memory.
//! - [`laws`]: what follows from the rules, proved.
//!
//! The balances are kept by a host. An operation that moves value takes the
//! balance it needs and returns the balance to be set.

mod balance;
pub mod error;
pub mod event;
pub mod flags;
pub mod laws;
pub mod pallet;
pub mod rules;
pub mod state;
pub mod survey;

pub use error::Error;
pub use event::Event;
pub use flags::FlagTable;
pub use pallet::Pallet;
pub use rules::{Funded, Rewarded};
pub use state::State;
pub use survey::{AccountId, Balance, Status, Survey, SurveyId};
