use crate::cooldown::throttled_in;
use crate::cooldown::CooldownTracker;
use crate::error::Error;
use crate::store::records_wf;
use crate::store::register_model;
use crate::store::RecordModel;
use crate::store::Store;
use crate::validator::contains_period;
use crate::validator::contains_space;
use crate::validator::evaluate;
use crate::validator::find_char;
use crate::validator::Decision;
use vstd::prelude::*;

verus! {

/// What the engine reports for one inbound message. Moderation (deleting a
/// `Throttled`/`Rejected` message) and publishing the finished sentence of
/// `AcceptedAndCompleted` are the caller's responsibility.
#[derive(Debug, PartialEq, Eq)]
pub enum Outcome {
    Ignored,
    Throttled,
    Rejected,
    Accepted,
    AcceptedAndCompleted(String),
}

/// The engine's whole state, mathematically: the durable record table and
/// the transient cooldown table.
#[verifier::ext_equal]
pub ghost struct StateModel {
    pub records: Map<u64, RecordModel>,
    pub cooldown: Map<u64, i64>,
}

/// A message on a registered channel within the throttle window of that
/// channel's last counted activity.
pub open spec fn throttles(s: StateModel, channel_id: u64, now: i64) -> bool {
    s.records.contains_key(channel_id) && throttled_in(s.cooldown, channel_id, now)
}

/// A message that gets past registration and the throttle but breaks a game
/// rule: it is multi-word, or its author took the previous turn.
pub open spec fn rejects(
    s: StateModel,
    channel_id: u64,
    author: u64,
    word: Seq<char>,
    now: i64,
) -> bool {
    &&& s.records.contains_key(channel_id)
    &&& !throttled_in(s.cooldown, channel_id, now)
    &&& (contains_space(word) || s.records[channel_id].last_contributor == Some(author))
}

/// A legal contribution: registered channel, outside the throttle window,
/// a single word, from someone other than the last contributor.
pub open spec fn accepts(
    s: StateModel,
    channel_id: u64,
    author: u64,
    word: Seq<char>,
    now: i64,
) -> bool {
    &&& s.records.contains_key(channel_id)
    &&& !throttled_in(s.cooldown, channel_id, now)
    &&& !contains_space(word)
    &&& s.records[channel_id].last_contributor != Some(author)
}

/// The sentence a completing word produces: the accumulated buffer with the
/// word and its separator appended.
pub open spec fn completed_sentence(s: StateModel, channel_id: u64, word: Seq<char>) -> Seq<
    char,
> {
    s.records[channel_id].buffer + word + seq![' ']
}

/// The state after one message is handled.
///
/// An unregistered channel is inert; a throttled message changes nothing
/// (deliberately, the tracker is not re-stamped); a rejected message counts
/// as activity for the throttle but leaves the record table alone; an
/// accepted word is appended and stamps the tracker, and if it carries a
/// period the channel's buffer is flushed empty in the same step.
pub open spec fn step_state(
    s: StateModel,
    channel_id: u64,
    author: u64,
    word: Seq<char>,
    now: i64,
) -> StateModel {
    if !s.records.contains_key(channel_id) {
        s
    } else if throttled_in(s.cooldown, channel_id, now) {
        s
    } else if rejects(s, channel_id, author, word, now) {
        StateModel { records: s.records, cooldown: s.cooldown.insert(channel_id, now) }
    } else if contains_period(word) {
        StateModel {
            records: s.records.insert(channel_id, RecordModel::empty()),
            cooldown: s.cooldown.insert(channel_id, now),
        }
    } else {
        StateModel {
            records: s.records.insert(
                channel_id,
                s.records[channel_id].appended(word, author),
            ),
            cooldown: s.cooldown.insert(channel_id, now),
        }
    }
}

/// The two administrative operations a privileged user may request.
#[derive(Debug, Clone, Copy, PartialEq, Eq, Structural)]
pub enum AdminAction {
    Register,
    Unregister,
}

/// One administrative request, as the platform layer reduces a command: the
/// channel it concerns, the action asked for, and whether a privileged user
/// made the request.
#[derive(Debug, Clone, Copy, PartialEq, Eq, Structural)]
pub struct AdminRequest {
    pub channel_id: u64,
    pub action: AdminAction,
    pub requested_by_privileged_user: bool,
}

/// The per-channel game engine: it owns the durable store and the cooldown
/// tracker, and drives one state machine per registered channel. A caller
/// that handles messages concurrently wraps one `Handler` in a lock, so each
/// `handle_message` runs as an atomic unit.
pub struct Handler {
    store: Store,
    cooldown: CooldownTracker,
}

impl View for Handler {
    type V = StateModel;

    closed spec fn view(&self) -> StateModel {
        StateModel { records: self.store@, cooldown: self.cooldown@ }
    }
}

impl Handler {
    /// Every record of the table is well formed.
    pub open spec fn wf(self) -> bool {
        records_wf(self@.records)
    }

    /// An engine with no registered channel and no recorded activity.
    pub fn new() -> (h: Handler)
        ensures
            h@.records == Map::<u64, RecordModel>::empty(),
            h@.cooldown == Map::<u64, i64>::empty(),
            h.wf(),
    {
        Handler { store: Store::new(), cooldown: CooldownTracker::new() }
    }

    /// Registers the channel: a fresh empty record if it was absent, a
    /// successful no-op — buffer untouched — if it was already present.
    pub fn add_channel(&mut self, channel_id: u64) -> (r: Result<(), Error>)
        ensures
            r is Ok,
            final(self)@.records == register_model(old(self)@.records, channel_id),
            final(self)@.cooldown == old(self)@.cooldown,
            old(self).wf() ==> final(self).wf(),
    {
        self.store.register(channel_id)
    }

    /// Re-creates a channel's record from durably kept values, as a caller
    /// that persists the table does at startup; overwrites any present
    /// record.
    pub fn restore_channel(
        &mut self,
        channel_id: u64,
        buffer: String,
        last_contributor: Option<u64>,
    ) -> (r: Result<(), Error>)
        ensures
            r is Ok,
            final(self)@.records == old(self)@.records.insert(
                channel_id,
                RecordModel { buffer: buffer@, last_contributor },
            ),
            final(self)@.cooldown == old(self)@.cooldown,
            old(self).wf() && (RecordModel { buffer: buffer@, last_contributor }).wf()
                ==> final(self).wf(),
    {
        self.store.restore(channel_id, buffer, last_contributor)
    }

    /// Removes the channel's record if present; a successful no-op if absent.
    pub fn remove_channel(&mut self, channel_id: u64) -> (r: Result<(), Error>)
        ensures
            r is Ok,
            final(self)@.records == old(self)@.records.remove(channel_id),
            final(self)@.cooldown == old(self)@.cooldown,
            old(self).wf() ==> final(self).wf(),
    {
        self.store.unregister(channel_id)
    }

    /// Whether the channel takes part in the game.
    pub fn is_channel_registered(&self, channel_id: u64) -> (r: Result<bool, Error>)
        ensures
            r == Ok::<bool, Error>(self@.records.contains_key(channel_id)),
    {
        self.store.is_registered(channel_id)
    }

    /// Whether a message on the channel at `now` falls inside the throttle
    /// window of the channel's last counted activity.
    pub fn is_on_cooldown(&self, channel_id: u64, now: i64) -> (r: Result<bool, Error>)
        ensures
            r == Ok::<bool, Error>(throttled_in(self@.cooldown, channel_id, now)),
    {
        Ok(self.cooldown.is_throttled(channel_id, now))
    }

    /// Whether the channel is registered and `user` authored its most
    /// recently accepted word.
    pub fn is_last_message_sender(&self, channel_id: u64, user: u64) -> (r: Result<bool, Error>)
        ensures
            r == Ok::<bool, Error>(
                self@.records.contains_key(channel_id)
                    && self@.records[channel_id].last_contributor == Some(user),
            ),
    {
        match self.store.last_contributor(channel_id) {
            Ok(last) => match last {
                Some(u) => Ok(u == user),
                None => Ok(false),
            },
            Err(_) => Ok(false),
        }
    }

    /// Appends an accepted word to the channel's buffer, records `author` as
    /// the last contributor, and stamps the cooldown tracker with `now`;
    /// `NotFound`, with nothing changed, if the channel is not registered.
    pub fn append_text(&mut self, channel_id: u64, word: &str, author: u64, now: i64) -> (r:
        Result<(), Error>)
        ensures
            old(self)@.records.contains_key(channel_id) ==> {
                &&& r is Ok
                &&& final(self)@.records == old(self)@.records.insert(
                    channel_id,
                    old(self)@.records[channel_id].appended(word@, author),
                )
                &&& final(self)@.cooldown == old(self)@.cooldown.insert(channel_id, now)
            },
            !old(self)@.records.contains_key(channel_id) ==> {
                &&& r == Err::<(), Error>(Error::NotFound)
                &&& final(self)@ == old(self)@
            },
            old(self).wf() ==> final(self).wf(),
    {
        match self.store.append_word(channel_id, word, author) {
            Ok(()) => {
                self.cooldown.record(channel_id, now);
                Ok(())
            },
            Err(e) => Err(e),
        }
    }

    /// Atomically reads the channel's buffer, clears it, resets the last
    /// contributor, and returns the pre-clear content; `NotFound`, with
    /// nothing changed, if the channel is not registered or its buffer holds
    /// no accumulated text.
    pub fn pop_text(&mut self, channel_id: u64) -> (r: Result<String, Error>)
        ensures
            old(self)@.records.contains_key(channel_id) && old(
                self,
            )@.records[channel_id].buffer.len() > 0 ==> {
                &&& r matches Ok(sentence) && sentence@ == old(self)@.records[channel_id].buffer
                &&& final(self)@.records == old(self)@.records.insert(channel_id, RecordModel::empty())
                &&& final(self)@.cooldown == old(self)@.cooldown
            },
            !(old(self)@.records.contains_key(channel_id) && old(
                self,
            )@.records[channel_id].buffer.len() > 0) ==> {
                &&& r == Err::<String, Error>(Error::NotFound)
                &&& final(self)@ == old(self)@
            },
            old(self).wf() ==> final(self).wf(),
    {
        self.store.flush(channel_id)
    }

    /// Carries out one administrative request: a privileged registration or
    /// de-registration is applied to the store and acknowledged with
    /// `Ok(true)`; a request without the privilege changes nothing and is
    /// reported, not performed, with `Ok(false)`.
    pub fn handle_admin_request(&mut self, request: AdminRequest) -> (r: Result<bool, Error>)
        ensures
            !request.requested_by_privileged_user ==> {
                &&& r == Ok::<bool, Error>(false)
                &&& final(self)@ == old(self)@
            },
            request.requested_by_privileged_user ==> {
                &&& r == Ok::<bool, Error>(true)
                &&& final(self)@.records == (match request.action {
                    AdminAction::Register => register_model(
                        old(self)@.records,
                        request.channel_id,
                    ),
                    AdminAction::Unregister => old(self)@.records.remove(request.channel_id),
                })
                &&& final(self)@.cooldown == old(self)@.cooldown
            },
            old(self).wf() ==> final(self).wf(),
    {
        if !request.requested_by_privileged_user {
            return Ok(false);
        }
        let applied = match request.action {
            AdminAction::Register => self.add_channel(request.channel_id),
            AdminAction::Unregister => self.remove_channel(request.channel_id),
        };
        match applied {
            Ok(()) => Ok(true),
            Err(e) => Err(e),
        }
    }

    /// Drives the channel's state machine for one inbound message, returning
    /// the game outcome. The contract pins every case: an unregistered
    /// channel is inert; a throttled message changes nothing; a multi-word
    /// or same-author message is rejected yet still counts as activity for
    /// the throttle; an accepted word is appended and, if it carries a
    /// period, the whole buffer is flushed and returned as the finished
    /// sentence.
    pub fn handle_message(&mut self, channel_id: u64, author: u64, text: &str, now: i64) -> (r:
        Outcome)
        ensures
            final(self)@ == step_state(old(self)@, channel_id, author, text@, now),
            r is Ignored <==> !old(self)@.records.contains_key(channel_id),
            r is Throttled <==> throttles(old(self)@, channel_id, now),
            r is Rejected <==> rejects(old(self)@, channel_id, author, text@, now),
            r is Accepted <==> accepts(old(self)@, channel_id, author, text@, now)
                && !contains_period(text@),
            r is AcceptedAndCompleted <==> accepts(old(self)@, channel_id, author, text@, now)
                && contains_period(text@),
            r matches Outcome::AcceptedAndCompleted(sentence) ==> sentence@
                == completed_sentence(old(self)@, channel_id, text@),
            old(self).wf() ==> final(self).wf(),
    {
        let registered = match self.is_channel_registered(channel_id) {
            Ok(b) => b,
            Err(_) => false,
        };
        if !registered {
            return Outcome::Ignored;
        }
        let throttled = match self.is_on_cooldown(channel_id, now) {
            Ok(b) => b,
            Err(_) => false,
        };
        if throttled {
            return Outcome::Throttled;
        }
        let last = match self.store.last_contributor(channel_id) {
            Ok(last) => last,
            Err(_) => {
                proof {
                    assert(false);
                }
                None
            },
        };
        match evaluate(text, author, last) {
            Decision::RejectMultiWord | Decision::RejectSameAuthor => {
                self.cooldown.record(channel_id, now);
                Outcome::Rejected
            },
            Decision::Accept => {
                let _ = self.append_text(channel_id, text, author, now);
                if find_char(text, '.') {
                    match self.pop_text(channel_id) {
                        Ok(sentence) => Outcome::AcceptedAndCompleted(sentence),
                        Err(_) => {
                            proof {
                                assert(false);
                            }
                            Outcome::Accepted
                        },
                    }
                } else {
                    Outcome::Accepted
                }
            },
        }
    }
}

} // verus!
