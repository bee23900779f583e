//! A collaborative "one word at a time" sentence game, one state machine per
//! channel: each participant contributes a single word to a shared buffer,
//! nobody may take two consecutive turns, rapid-fire messages are throttled,
//! and a word carrying terminal punctuation flushes the finished sentence.

use vstd::prelude::*;

mod cooldown;
mod engine;
mod error;
mod laws;
mod store;
mod validator;

pub use cooldown::throttled_in;
pub use cooldown::CooldownTracker;
pub use engine::accepts;
pub use engine::completed_sentence;
pub use engine::rejects;
pub use engine::step_state;
pub use engine::throttles;
pub use engine::AdminAction;
pub use engine::AdminRequest;
pub use engine::Handler;
pub use engine::Outcome;
pub use engine::StateModel;
pub use error::Error;
pub use laws::all_accepted;
pub use laws::clean;
pub use laws::joined;
pub use laws::lemma_cooldown_window;
pub use laws::lemma_joined_contains_each_word;
pub use laws::lemma_multiword_always_rejected;
pub use laws::lemma_no_consecutive_turns;
pub use laws::lemma_register_idempotent;
pub use laws::lemma_run_appends_all_words;
pub use laws::lemma_step_preserves_clean;
pub use laws::lemma_throttled_changes_nothing;
pub use laws::run_state;
pub use store::records_wf;
pub use store::register_model;
pub use store::ChannelRecord;
pub use store::RecordModel;
pub use store::Store;
pub use validator::contains_char;
pub use validator::contains_period;
pub use validator::contains_space;
pub use validator::evaluate;
pub use validator::find_char;
pub use validator::Decision;

verus! {

/// Length of the throttle window: two messages on one channel closer together
/// than this many milliseconds are not both considered.
pub const COOLDOWN_WINDOW_MILLIS: i64 = 1500;

} // verus!
