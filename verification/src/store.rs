use crate::error::Error;
use std::collections::HashMap;
use vstd::prelude::*;
use vstd::string::StringExecFns;

verus! {

broadcast use vstd::std_specs::hash::group_hash_axioms;

/// The mathematical content of one channel's durable record: the accumulated
/// text and the author of the most recently accepted word (`None` after a
/// flush or on creation).
#[verifier::ext_equal]
pub ghost struct RecordModel {
    pub buffer: Seq<char>,
    pub last_contributor: Option<u64>,
}

impl RecordModel {
    /// The record a fresh registration creates: empty buffer, no contributor.
    pub open spec fn empty() -> RecordModel {
        RecordModel { buffer: Seq::empty(), last_contributor: None }
    }

    /// The record after a word by `author` is accepted: the word and a
    /// trailing separator are appended, and the author is remembered.
    pub open spec fn appended(self, word: Seq<char>, author: u64) -> RecordModel {
        RecordModel {
            buffer: self.buffer + word + seq![' '],
            last_contributor: Some(author),
        }
    }

    /// A record as the store keeps it between operations: the buffer is a
    /// row of space-terminated words, and it is empty exactly when no
    /// contributor is remembered.
    pub open spec fn wf(self) -> bool {
        &&& self.buffer.len() == 0 <==> self.last_contributor is None
        &&& self.buffer.len() > 0 ==> self.buffer.last() == ' '
    }
}

/// One registered channel's durable record.
pub struct ChannelRecord {
    pub buffer: String,
    pub last_contributor: Option<u64>,
}

impl View for ChannelRecord {
    type V = RecordModel;

    open spec fn view(&self) -> RecordModel {
        RecordModel { buffer: self.buffer@, last_contributor: self.last_contributor }
    }
}

/// What registering a channel does to the record table: a fresh empty record
/// if the channel was absent, no change at all if it was already present.
pub open spec fn register_model(m: Map<u64, RecordModel>, channel_id: u64) -> Map<
    u64,
    RecordModel,
> {
    if m.contains_key(channel_id) {
        m
    } else {
        m.insert(channel_id, RecordModel::empty())
    }
}

/// The durable per-channel table: the set of registered channels is exactly
/// the key set, each key holding that channel's buffer and last contributor.
pub struct Store {
    records: HashMap<u64, ChannelRecord>,
}

impl View for Store {
    type V = Map<u64, RecordModel>;

    closed spec fn view(&self) -> Map<u64, RecordModel> {
        Map::new(
            |c: u64| self.records@.contains_key(c),
            |c: u64| self.records@[c]@,
        )
    }
}

/// Every record of a table is well formed.
pub open spec fn records_wf(m: Map<u64, RecordModel>) -> bool {
    forall|c: u64| m.contains_key(c) ==> (#[trigger] m[c]).wf()
}

impl Store {
    /// Every record of the table is well formed.
    pub open spec fn wf(self) -> bool {
        records_wf(self@)
    }

    /// A store with no registered channel.
    pub fn new() -> (s: Store)
        ensures
            s@ == Map::<u64, RecordModel>::empty(),
            s.wf(),
    {
        let s = Store { records: HashMap::new() };
        proof {
            assert(s@ =~= Map::<u64, RecordModel>::empty());
        }
        s
    }

    /// Idempotent registration: creates an empty record if the channel is
    /// absent, and is a successful no-op if it is already present.
    pub fn register(&mut self, channel_id: u64) -> (r: Result<(), Error>)
        ensures
            r is Ok,
            final(self)@ == register_model(old(self)@, channel_id),
            old(self).wf() ==> final(self).wf(),
    {
        if !self.records.contains_key(&channel_id) {
            let record = ChannelRecord { buffer: String::new(), last_contributor: None };
            self.records.insert(channel_id, record);
            proof {
                assert(self@ =~~= register_model(old(self)@, channel_id));
            }
        } else {
            proof {
                assert(self@ =~~= register_model(old(self)@, channel_id));
            }
        }
        Ok(())
    }

    /// Re-creates a channel's record from durably kept values, as a caller
    /// that persists the table does at startup; overwrites any present
    /// record. Well-formedness is kept when the restored values themselves
    /// are a well-formed record.
    pub fn restore(&mut self, channel_id: u64, buffer: String, last_contributor: Option<u64>) -> (
        r: Result<(), Error>)
        ensures
            r is Ok,
            final(self)@ == old(self)@.insert(
                channel_id,
                RecordModel { buffer: buffer@, last_contributor },
            ),
            old(self).wf() && (RecordModel { buffer: buffer@, last_contributor }).wf()
                ==> final(self).wf(),
    {
        self.records.insert(channel_id, ChannelRecord { buffer, last_contributor });
        proof {
            assert(self@ =~~= old(self)@.insert(
                channel_id,
                RecordModel { buffer: buffer@, last_contributor },
            ));
        }
        Ok(())
    }

    /// Removes the channel's record if present; a successful no-op if absent.
    pub fn unregister(&mut self, channel_id: u64) -> (r: Result<(), Error>)
        ensures
            r is Ok,
            final(self)@ == old(self)@.remove(channel_id),
            old(self).wf() ==> final(self).wf(),
    {
        self.records.remove(&channel_id);
        proof {
            assert(self@ =~~= old(self)@.remove(channel_id));
        }
        Ok(())
    }

    /// Whether the channel has a record, i.e. takes part in the game.
    pub fn is_registered(&self, channel_id: u64) -> (r: Result<bool, Error>)
        ensures
            r == Ok::<bool, Error>(self@.contains_key(channel_id)),
    {
        Ok(self.records.contains_key(&channel_id))
    }

    /// The stored last contributor; `NotFound` if the channel is not
    /// registered.
    pub fn last_contributor(&self, channel_id: u64) -> (r: Result<Option<u64>, Error>)
        ensures
            self@.contains_key(channel_id) ==> r == Ok::<Option<u64>, Error>(
                self@[channel_id].last_contributor,
            ),
            !self@.contains_key(channel_id) ==> r == Err::<Option<u64>, Error>(Error::NotFound),
    {
        match self.records.get(&channel_id) {
            Some(record) => Ok(record.last_contributor),
            None => Err(Error::NotFound),
        }
    }

    /// Appends `word` plus a separating space onto the channel's buffer and
    /// makes `author` the last contributor; `NotFound` if the channel is not
    /// registered, in which case nothing changes.
    pub fn append_word(&mut self, channel_id: u64, word: &str, author: u64) -> (r: Result<
        (),
        Error,
    >)
        ensures
            old(self)@.contains_key(channel_id) ==> {
                &&& r is Ok
                &&& final(self)@ == old(self)@.insert(
                    channel_id,
                    old(self)@[channel_id].appended(word@, author),
                )
            },
            !old(self)@.contains_key(channel_id) ==> {
                &&& r == Err::<(), Error>(Error::NotFound)
                &&& final(self)@ == old(self)@
            },
            old(self).wf() ==> final(self).wf(),
    {
        match self.records.get(&channel_id) {
            Some(record) => {
                let mut buffer = record.buffer.clone();
                let last: Option<u64> = record.last_contributor;
                buffer.append(word);
                buffer.append(" ");
                proof {
                    reveal_strlit(" ");
                    assert(" "@ =~= seq![' ']);
                }
                let updated = ChannelRecord { buffer, last_contributor: Some(author) };
                self.records.insert(channel_id, updated);
                proof {
                    assert(self@ =~~= old(self)@.insert(
                        channel_id,
                        old(self)@[channel_id].appended(word@, author),
                    ));
                }
                Ok(())
            },
            None => Err(Error::NotFound),
        }
    }

    /// Atomically reads the channel's buffer, clears it, resets the last
    /// contributor, and returns the pre-clear content; `NotFound`, with
    /// nothing changed, if the channel is not registered or its buffer holds
    /// no accumulated text.
    pub fn flush(&mut self, channel_id: u64) -> (r: Result<String, Error>)
        ensures
            old(self)@.contains_key(channel_id) && old(self)@[channel_id].buffer.len() > 0 ==> {
                &&& r matches Ok(sentence) && sentence@ == old(self)@[channel_id].buffer
                &&& final(self)@ == old(self)@.insert(channel_id, RecordModel::empty())
            },
            !(old(self)@.contains_key(channel_id) && old(self)@[channel_id].buffer.len() > 0)
                ==> {
                &&& r == Err::<String, Error>(Error::NotFound)
                &&& final(self)@ == old(self)@
            },
            old(self).wf() ==> final(self).wf(),
    {
        match self.records.get(&channel_id) {
            Some(record) => {
                if record.buffer.as_str().is_empty() {
                    return Err(Error::NotFound);
                }
                let sentence = record.buffer.clone();
                let cleared = ChannelRecord { buffer: String::new(), last_contributor: None };
                self.records.insert(channel_id, cleared);
                proof {
                    assert(self@ =~~= old(self)@.insert(channel_id, RecordModel::empty()));
                }
                Ok(sentence)
            },
            None => Err(Error::NotFound),
        }
    }
}

} // verus!
