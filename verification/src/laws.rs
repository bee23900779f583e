use crate::cooldown::throttled_in;
use crate::engine::accepts;
use crate::engine::rejects;
use crate::engine::step_state;
use crate::engine::StateModel;
use crate::store::register_model;
use crate::store::RecordModel;
use crate::validator::contains_period;
use crate::validator::contains_space;
use crate::COOLDOWN_WINDOW_MILLIS;
use vstd::prelude::*;

verus! {

/// Registering a channel is idempotent: registering it a second time leaves
/// exactly the table the first registration left — one record for the
/// channel, its buffer untouched.
pub proof fn lemma_register_idempotent(m: Map<u64, RecordModel>, channel_id: u64)
    ensures
        register_model(register_model(m, channel_id), channel_id) == register_model(m, channel_id),
{
}

/// A submission containing a space is rejected regardless of its author and
/// of whose turn it is.
pub proof fn lemma_multiword_always_rejected(
    s: StateModel,
    channel_id: u64,
    author: u64,
    word: Seq<char>,
    now: i64,
)
    requires
        s.records.contains_key(channel_id),
        !throttled_in(s.cooldown, channel_id, now),
        contains_space(word),
    ensures
        rejects(s, channel_id, author, word, now),
{
}

/// Two accepted contributions never come from the same author consecutively:
/// once a word of `author` is accepted (and does not complete the sentence),
/// any next message of the same author on that channel that gets past the
/// throttle is rejected, whatever its word.
pub proof fn lemma_no_consecutive_turns(
    s: StateModel,
    channel_id: u64,
    author: u64,
    first_word: Seq<char>,
    t1: i64,
    second_word: Seq<char>,
    t2: i64,
)
    requires
        accepts(s, channel_id, author, first_word, t1),
        !contains_period(first_word),
        !throttled_in(step_state(s, channel_id, author, first_word, t1).cooldown, channel_id, t2),
    ensures
        rejects(step_state(s, channel_id, author, first_word, t1), channel_id, author, second_word, t2),
{
}

/// The throttle window after counted activity: once a message is accepted or
/// rejected at `t1`, a later message on the channel is throttled exactly when
/// it comes less than the cooldown window after `t1`.
pub proof fn lemma_cooldown_window(
    s: StateModel,
    channel_id: u64,
    author: u64,
    word: Seq<char>,
    t1: i64,
    t2: i64,
)
    requires
        accepts(s, channel_id, author, word, t1) || rejects(s, channel_id, author, word, t1),
    ensures
        throttled_in(step_state(s, channel_id, author, word, t1).cooldown, channel_id, t2)
            <==> t2 - t1 < COOLDOWN_WINDOW_MILLIS,
{
}

/// A throttled message leaves both tables exactly as they were: in
/// particular the tracker is deliberately not re-stamped, so the window is
/// measured from the last message that counted, not from the last attempt.
pub proof fn lemma_throttled_changes_nothing(
    s: StateModel,
    channel_id: u64,
    author: u64,
    word: Seq<char>,
    now: i64,
)
    requires
        throttled_in(s.cooldown, channel_id, now),
    ensures
        step_state(s, channel_id, author, word, now) == s,
{
}

/// No stored buffer holds terminal punctuation: a period only ever passes
/// through a buffer inside the step that flushes it.
pub open spec fn clean(m: Map<u64, RecordModel>) -> bool {
    forall|c: u64| m.contains_key(c) ==> !contains_period((#[trigger] m[c]).buffer)
}

/// Handling a message preserves cleanliness: a word with a period is either
/// rejected or appended and flushed within the same step, so between steps
/// no channel's buffer ever holds one.
pub proof fn lemma_step_preserves_clean(
    s: StateModel,
    channel_id: u64,
    author: u64,
    word: Seq<char>,
    now: i64,
)
    requires
        clean(s.records),
    ensures
        clean(step_state(s, channel_id, author, word, now).records),
{
    let m = step_state(s, channel_id, author, word, now).records;
    assert forall|c: u64| m.contains_key(c) implies !contains_period((#[trigger] m[c]).buffer) by {
        if accepts(s, channel_id, author, word, now) && !contains_period(word) && c
            == channel_id {
            let b = s.records[channel_id].buffer;
            let appended = b + word + seq![' '];
            assert forall|i: int| 0 <= i < appended.len() implies appended[i] != '.' by {
                if i < b.len() {
                    assert(appended[i] == b[i]);
                } else if i < b.len() + word.len() {
                    assert(appended[i] == word[i - b.len()]);
                }
            }
        }
    }
}

/// The words of a submission sequence joined in order, each word followed by
/// one separating space — the exact join policy of the buffer.
pub open spec fn joined(words: Seq<Seq<char>>) -> Seq<char>
    decreases words.len(),
{
    if words.len() == 0 {
        Seq::empty()
    } else {
        joined(words.drop_last()) + words.last() + seq![' ']
    }
}

/// Each submitted word stands whole somewhere inside the joined text: the
/// join separates words, it never tears one apart.
pub proof fn lemma_joined_contains_each_word(words: Seq<Seq<char>>, i: int)
    requires
        0 <= i < words.len(),
    ensures
        exists|k: int|
            0 <= k && k + words[i].len() <= joined(words).len() && #[trigger] joined(
                words,
            ).subrange(k, k + words[i].len()) == words[i],
    decreases words.len(),
{
    let whole = joined(words);
    if i == words.len() - 1 {
        let k = joined(words.drop_last()).len() as int;
        assert(whole.subrange(k, k + words[i].len()) =~= words[i]);
    } else {
        lemma_joined_contains_each_word(words.drop_last(), i);
        let prefix = joined(words.drop_last());
        let k = choose|k: int|
            0 <= k && k + words.drop_last()[i].len() <= prefix.len() && #[trigger] prefix.subrange(
                k,
                k + words.drop_last()[i].len(),
            ) == words.drop_last()[i];
        assert(whole.subrange(k, k + words[i].len()) =~= words[i]);
    }
}

/// The state after the messages `(words[i], authors[i], times[i])` are
/// handled on `channel_id`, in order, serialized as the engine requires.
pub open spec fn run_state(
    s: StateModel,
    channel_id: u64,
    words: Seq<Seq<char>>,
    authors: Seq<u64>,
    times: Seq<i64>,
) -> StateModel
    decreases words.len(),
{
    if words.len() == 0 {
        s
    } else {
        step_state(
            run_state(s, channel_id, words.drop_last(), authors.drop_last(), times.drop_last()),
            channel_id,
            authors.last(),
            words.last(),
            times.last(),
        )
    }
}

/// Every message of the run is accepted in the state where it arrives.
pub open spec fn all_accepted(
    s: StateModel,
    channel_id: u64,
    words: Seq<Seq<char>>,
    authors: Seq<u64>,
    times: Seq<i64>,
) -> bool
    decreases words.len(),
{
    if words.len() == 0 {
        true
    } else {
        &&& all_accepted(
            s,
            channel_id,
            words.drop_last(),
            authors.drop_last(),
            times.drop_last(),
        )
        &&& accepts(
            run_state(s, channel_id, words.drop_last(), authors.drop_last(), times.drop_last()),
            channel_id,
            authors.last(),
            words.last(),
            times.last(),
        )
    }
}

/// Round trip and lost-update freedom for a serialized run: N single,
/// periodless words from non-repeating authors, spaced outside the cooldown
/// window, on a registered channel, are all accepted, and the buffer ends as
/// the starting buffer with all N words appended in submission order, each
/// with its separator — no word lost, none reordered. The buffer is then
/// non-empty, so a flush is owed success and returns exactly that text.
pub proof fn lemma_run_appends_all_words(
    s: StateModel,
    channel_id: u64,
    words: Seq<Seq<char>>,
    authors: Seq<u64>,
    times: Seq<i64>,
)
    requires
        words.len() == authors.len(),
        words.len() == times.len(),
        s.records.contains_key(channel_id),
        forall|i: int|
            0 <= i < words.len() ==> !contains_space(#[trigger] words[i]) && !contains_period(
                words[i],
            ),
        forall|i: int| 0 < i < authors.len() ==> #[trigger] authors[i] != authors[i - 1],
        words.len() > 0 ==> s.records[channel_id].last_contributor != Some(authors[0]),
        words.len() > 0 ==> !throttled_in(s.cooldown, channel_id, times[0]),
        forall|i: int|
            0 < i < times.len() ==> #[trigger] times[i] - times[i - 1] >= COOLDOWN_WINDOW_MILLIS,
    ensures
        all_accepted(s, channel_id, words, authors, times),
        run_state(s, channel_id, words, authors, times).records.contains_key(channel_id),
        run_state(s, channel_id, words, authors, times).records[channel_id].buffer
            == s.records[channel_id].buffer + joined(words),
        words.len() > 0 ==> run_state(
            s,
            channel_id,
            words,
            authors,
            times,
        ).records[channel_id].last_contributor == Some(authors.last()),
        words.len() > 0 ==> run_state(
            s,
            channel_id,
            words,
            authors,
            times,
        ).records[channel_id].buffer.len() > 0,
        words.len() > 0 ==> {
            let cd = run_state(s, channel_id, words, authors, times).cooldown;
            cd.contains_key(channel_id) && cd[channel_id] == times.last()
        },
    decreases words.len(),
{
    if words.len() == 0 {
        assert(s.records[channel_id].buffer + joined(words) =~= s.records[channel_id].buffer);
    } else {
        let wp = words.drop_last();
        let ap = authors.drop_last();
        let tp = times.drop_last();
        lemma_run_appends_all_words(s, channel_id, wp, ap, tp);
        let s1 = run_state(s, channel_id, wp, ap, tp);
        assert(accepts(s1, channel_id, authors.last(), words.last(), times.last())) by {
            if wp.len() > 0 {
                assert(tp.last() == times[words.len() - 2]);
                assert(times.last() - times[words.len() - 2] >= COOLDOWN_WINDOW_MILLIS);
                assert(ap.last() == authors[words.len() - 2]);
                assert(authors.last() != authors[words.len() - 2]);
            }
        }
        assert(run_state(s, channel_id, words, authors, times).records[channel_id].buffer
            =~= s.records[channel_id].buffer + joined(words));
    }
}

} // verus!
