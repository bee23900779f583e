use one_word::AdminAction;
use one_word::AdminRequest;
use one_word::CooldownTracker;
use one_word::Decision;
use one_word::Error;
use one_word::Handler;
use one_word::Outcome;
use one_word::Store;
use one_word::evaluate;

#[test]
fn unregistered_channel_is_ignored() {
    let mut h = Handler::new();
    assert_eq!(h.handle_message(5, 1, "word", 0), Outcome::Ignored);
    assert_eq!(h.is_channel_registered(5), Ok(false));
    assert_eq!(h.pop_text(5), Err(Error::NotFound));
}

#[test]
fn ignored_message_leaves_tracker_unchanged() {
    let mut h = Handler::new();
    assert_eq!(h.handle_message(5, 1, "early", 0), Outcome::Ignored);
    h.add_channel(5).unwrap();
    // Had the ignored message counted as activity, this would be throttled.
    assert_eq!(h.handle_message(5, 1, "word", 1000), Outcome::Accepted);
}

#[test]
fn same_author_twice_is_rejected() {
    let mut h = Handler::new();
    h.add_channel(7).unwrap();
    assert_eq!(h.handle_message(7, 1, "word1", 0), Outcome::Accepted);
    assert_eq!(h.handle_message(7, 1, "word2", 1600), Outcome::Rejected);
    assert_eq!(h.handle_message(7, 2, "word2", 3200), Outcome::Accepted);
}

#[test]
fn multiword_is_rejected_regardless_of_turn() {
    let mut h = Handler::new();
    h.add_channel(7).unwrap();
    assert_eq!(h.handle_message(7, 1, "two words", 0), Outcome::Rejected);
    // A different author on a fresh turn is rejected just the same.
    assert_eq!(h.handle_message(7, 2, "also not one", 1600), Outcome::Rejected);
}

#[test]
fn second_message_within_window_is_throttled() {
    let mut h = Handler::new();
    h.add_channel(3).unwrap();
    assert_eq!(h.handle_message(3, 1, "word", 0), Outcome::Accepted);
    assert_eq!(h.handle_message(3, 2, "next", 1000), Outcome::Throttled);
    assert_eq!(h.handle_message(3, 2, "next", 1600), Outcome::Accepted);
}

#[test]
fn rejected_message_counts_as_activity() {
    let mut h = Handler::new();
    h.add_channel(3).unwrap();
    assert_eq!(h.handle_message(3, 1, "two words", 0), Outcome::Rejected);
    assert_eq!(h.handle_message(3, 2, "fine", 1000), Outcome::Throttled);
}

#[test]
fn throttled_message_does_not_restamp_the_tracker() {
    let mut h = Handler::new();
    h.add_channel(3).unwrap();
    assert_eq!(h.handle_message(3, 1, "word", 0), Outcome::Accepted);
    assert_eq!(h.handle_message(3, 2, "next", 1000), Outcome::Throttled);
    // The window is measured from t=0, not from the throttled attempt.
    assert_eq!(h.handle_message(3, 2, "next", 1600), Outcome::Accepted);
}

#[test]
fn completing_word_flushes_the_sentence() {
    let mut h = Handler::new();
    h.add_channel(9).unwrap();
    assert_eq!(h.handle_message(9, 1, "I", 0), Outcome::Accepted);
    assert_eq!(h.handle_message(9, 2, "am", 1600), Outcome::Accepted);
    assert_eq!(
        h.handle_message(9, 3, "done.", 3200),
        Outcome::AcceptedAndCompleted(String::from("I am done. "))
    );
    // The buffer is empty again and the contributor is reset.
    assert_eq!(h.pop_text(9), Err(Error::NotFound));
    assert_eq!(h.is_last_message_sender(9, 3), Ok(false));
    // The author of the completing word may immediately start the next sentence.
    assert_eq!(h.handle_message(9, 3, "Again", 4800), Outcome::Accepted);
}

#[test]
fn period_anywhere_in_the_word_completes() {
    let mut h = Handler::new();
    h.add_channel(9).unwrap();
    assert_eq!(
        h.handle_message(9, 1, "end.!", 0),
        Outcome::AcceptedAndCompleted(String::from("end.! "))
    );
}

#[test]
fn register_is_idempotent() {
    let mut h = Handler::new();
    assert_eq!(h.add_channel(4), Ok(()));
    assert_eq!(h.add_channel(4), Ok(()));
    assert_eq!(h.handle_message(4, 1, "kept", 0), Outcome::Accepted);
    // Registering again leaves the one record, buffer untouched.
    assert_eq!(h.add_channel(4), Ok(()));
    assert_eq!(h.pop_text(4), Ok(String::from("kept ")));
}

#[test]
fn round_trip_keeps_all_words_in_order() {
    let mut h = Handler::new();
    h.add_channel(2).unwrap();
    let words = ["a", "quick", "brown", "fox", "jumps"];
    for (i, word) in words.iter().enumerate() {
        let outcome = h.handle_message(2, (i % 2) as u64, word, (i as i64) * 1600);
        assert_eq!(outcome, Outcome::Accepted);
    }
    assert_eq!(h.pop_text(2), Ok(String::from("a quick brown fox jumps ")));
}

#[test]
fn serialized_appends_lose_no_word() {
    // N appends from N distinct authors, serialized as the engine requires
    // of concurrent callers: all are accepted, none is lost or reordered.
    let mut h = Handler::new();
    h.add_channel(2).unwrap();
    for i in 0..10u64 {
        let word = format!("w{}", i);
        let outcome = h.handle_message(2, i + 1, &word, (i as i64) * 1600);
        assert_eq!(outcome, Outcome::Accepted);
    }
    assert_eq!(
        h.pop_text(2),
        Ok(String::from("w0 w1 w2 w3 w4 w5 w6 w7 w8 w9 "))
    );
}

#[test]
fn remove_channel_makes_it_inert_and_forgets_the_buffer() {
    let mut h = Handler::new();
    h.add_channel(6).unwrap();
    assert_eq!(h.handle_message(6, 1, "word", 0), Outcome::Accepted);
    assert_eq!(h.remove_channel(6), Ok(()));
    assert_eq!(h.handle_message(6, 2, "next", 1600), Outcome::Ignored);
    h.add_channel(6).unwrap();
    assert_eq!(h.pop_text(6), Err(Error::NotFound));
}

#[test]
fn remove_channel_absent_is_ok() {
    let mut h = Handler::new();
    assert_eq!(h.remove_channel(6), Ok(()));
}

#[test]
fn validator_trigger_paths_are_independent() {
    assert_eq!(evaluate("two words", 1, None), Decision::RejectMultiWord);
    assert_eq!(evaluate("two words", 1, Some(2)), Decision::RejectMultiWord);
    assert_eq!(evaluate("word", 1, Some(1)), Decision::RejectSameAuthor);
    assert_eq!(evaluate("word", 1, Some(2)), Decision::Accept);
    assert_eq!(evaluate("word", 1, None), Decision::Accept);
}

#[test]
fn cooldown_tracker_window_boundaries() {
    let mut t = CooldownTracker::new();
    assert!(!t.is_throttled(1, 0));
    t.record(1, 0);
    assert!(t.is_throttled(1, 0));
    assert!(t.is_throttled(1, 1499));
    assert!(!t.is_throttled(1, 1500));
    assert!(!t.is_throttled(2, 0));
    t.record(1, 3000);
    assert!(t.is_throttled(1, 4000));
}

#[test]
fn store_contract_notfound_cases() {
    let mut s = Store::new();
    assert_eq!(s.is_registered(1), Ok(false));
    assert_eq!(s.last_contributor(1), Err(Error::NotFound));
    assert_eq!(s.append_word(1, "word", 7), Err(Error::NotFound));
    assert_eq!(s.flush(1), Err(Error::NotFound));
    s.register(1).unwrap();
    assert_eq!(s.is_registered(1), Ok(true));
    assert_eq!(s.last_contributor(1), Ok(None));
    // A registered channel with no accumulated text has nothing to flush.
    assert_eq!(s.flush(1), Err(Error::NotFound));
}

#[test]
fn store_append_and_flush() {
    let mut s = Store::new();
    s.register(1).unwrap();
    assert_eq!(s.append_word(1, "one", 7), Ok(()));
    assert_eq!(s.last_contributor(1), Ok(Some(7)));
    assert_eq!(s.append_word(1, "two", 8), Ok(()));
    assert_eq!(s.flush(1), Ok(String::from("one two ")));
    assert_eq!(s.last_contributor(1), Ok(None));
    s.unregister(1).unwrap();
    assert_eq!(s.is_registered(1), Ok(false));
}

#[test]
fn is_last_message_sender_tracks_the_turn() {
    let mut h = Handler::new();
    h.add_channel(8).unwrap();
    assert_eq!(h.is_last_message_sender(8, 1), Ok(false));
    assert_eq!(h.handle_message(8, 1, "word", 0), Outcome::Accepted);
    assert_eq!(h.is_last_message_sender(8, 1), Ok(true));
    assert_eq!(h.is_last_message_sender(8, 2), Ok(false));
    // Unregistered channels report no sender instead of failing.
    assert_eq!(h.is_last_message_sender(99, 1), Ok(false));
}

#[test]
fn is_on_cooldown_reports_the_window() {
    let mut h = Handler::new();
    h.add_channel(8).unwrap();
    assert_eq!(h.is_on_cooldown(8, 0), Ok(false));
    assert_eq!(h.handle_message(8, 1, "word", 0), Outcome::Accepted);
    assert_eq!(h.is_on_cooldown(8, 1000), Ok(true));
    assert_eq!(h.is_on_cooldown(8, 1500), Ok(false));
}

#[test]
fn admin_request_needs_the_privilege() {
    let mut h = Handler::new();
    let unprivileged = AdminRequest {
        channel_id: 5,
        action: AdminAction::Register,
        requested_by_privileged_user: false,
    };
    assert_eq!(h.handle_admin_request(unprivileged), Ok(false));
    assert_eq!(h.is_channel_registered(5), Ok(false));
    let privileged = AdminRequest {
        channel_id: 5,
        action: AdminAction::Register,
        requested_by_privileged_user: true,
    };
    assert_eq!(h.handle_admin_request(privileged), Ok(true));
    assert_eq!(h.is_channel_registered(5), Ok(true));
    let removal = AdminRequest {
        channel_id: 5,
        action: AdminAction::Unregister,
        requested_by_privileged_user: true,
    };
    assert_eq!(h.handle_admin_request(removal), Ok(true));
    assert_eq!(h.is_channel_registered(5), Ok(false));
}

#[test]
fn restore_channel_reloads_a_record() {
    let mut h = Handler::new();
    h.restore_channel(4, String::from("loaded words "), Some(9)).unwrap();
    assert_eq!(h.is_channel_registered(4), Ok(true));
    assert_eq!(h.is_last_message_sender(4, 9), Ok(true));
    // The restored contributor may not take the next turn.
    assert_eq!(h.handle_message(4, 9, "again", 0), Outcome::Rejected);
    assert_eq!(h.pop_text(4), Ok(String::from("loaded words ")));
}
