use shellm::session::{save_destination, GenPhase, SessionCore, StepOutcome};

fn no_eog_samples(tokens: &[i32]) -> Vec<(i32, bool)> {
    tokens.iter().map(|t| (*t, false)).collect()
}

#[test]
fn greedy_generation_is_deterministic() {
    let prompt = vec![5, 6, 7];
    let samples = vec![(10, false), (11, false), (12, false), (13, true), (14, false)];

    let mut s1 = SessionCore::new(1000);
    let r1 = s1.run_turn(&prompt, &samples, 5);
    let mut s2 = SessionCore::new(1000);
    let r2 = s2.run_turn(&prompt, &samples, 5);

    assert_eq!(r1.0, r2.0);
    assert_eq!(r1.1, r2.1);
    assert_eq!(s1.snapshot(), s2.snapshot());
}

#[test]
fn save_load_round_trip_continues_generation() {
    let mut original = SessionCore::new(1000);
    let r = original.run_turn(&vec![1, 2, 3], &no_eog_samples(&[8, 9]), 2);
    assert_eq!(r.0, vec![8, 9]);

    let snap = original.snapshot();
    assert_eq!(snap, vec![1, 2, 3, 8, 9]);

    let mut restored = SessionCore::new(1000);
    restored.accept_loaded(snap.clone()).expect("snapshot fits the window");
    assert_eq!(restored.snapshot(), vec![1, 2, 3, 8, 9]);

    // The next turn primes only the new prompt: history grows by exactly
    // the new prompt and the new output.
    let r2 = restored.run_turn(&vec![4], &no_eog_samples(&[20]), 1);
    assert_eq!(r2.0, vec![20]);
    assert_eq!(restored.snapshot(), vec![1, 2, 3, 8, 9, 4, 20]);
}

#[test]
fn oversized_snapshot_is_rejected() {
    let mut small = SessionCore::new(2);
    small.accept_loaded(vec![1]).expect("one token fits");
    assert!(small.accept_loaded(vec![1, 2, 3]).is_err());
    // the failed load leaves the session untouched
    assert_eq!(small.snapshot(), vec![1]);
}

#[test]
fn max_token_limit_stops_after_exactly_five_steps() {
    let mut s = SessionCore::new(1000);
    let samples = no_eog_samples(&[1, 2, 3, 4, 5, 6, 7, 8, 9, 10]);
    let (out, phase) = s.run_turn(&vec![100], &samples, 5);
    assert_eq!(out.len(), 5);
    assert_eq!(out, vec![1, 2, 3, 4, 5]);
    assert_eq!(phase, GenPhase::StoppedByMaxTokens);
}

#[test]
fn end_marker_stops_generation() {
    let mut s = SessionCore::new(1000);
    let samples = vec![(42, true), (1, false)];
    let (out, phase) = s.run_turn(&vec![100], &samples, 2);
    assert!(out.is_empty());
    assert_eq!(phase, GenPhase::StoppedByEndToken);
    // the end marker is not recorded in the history
    assert_eq!(s.snapshot(), vec![100]);
}

#[test]
fn negative_limit_allows_no_tokens() {
    let mut s = SessionCore::new(1000);
    let (out, phase) = s.run_turn(&vec![100], &no_eog_samples(&[]), -3);
    assert!(out.is_empty());
    assert_eq!(phase, GenPhase::StoppedByMaxTokens);
}

#[test]
fn first_token_fires_exactly_once() {
    let mut s = SessionCore::new(1000);
    assert_eq!(s.phase(), GenPhase::Idle);
    s.submit_prompt(&vec![1, 2], 10);
    assert_eq!(s.phase(), GenPhase::DecodingPrompt);
    s.primed();
    assert_eq!(s.phase(), GenPhase::Generating);

    assert!(s.poll_continue());
    assert_eq!(s.feed(7, false), StepOutcome::Accepted { first_token: true });
    assert!(s.poll_continue());
    assert_eq!(s.feed(8, false), StepOutcome::Accepted { first_token: false });
    assert!(s.poll_continue());
    assert_eq!(s.feed(9, true), StepOutcome::GenerationEnded);
    assert_eq!(s.phase(), GenPhase::StoppedByEndToken);

    let out = s.take_result();
    assert_eq!(out, vec![7, 8]);
    assert_eq!(s.phase(), GenPhase::Idle);
    assert_eq!(s.snapshot(), vec![1, 2, 7, 8]);
}

#[test]
fn budget_exhaustion_is_reported_by_poll() {
    let mut s = SessionCore::new(1000);
    s.submit_prompt(&vec![], 1);
    s.primed();
    assert!(s.poll_continue());
    assert_eq!(s.feed(3, false), StepOutcome::Accepted { first_token: true });
    assert!(!s.poll_continue());
    assert_eq!(s.phase(), GenPhase::StoppedByMaxTokens);
    assert_eq!(s.take_result(), vec![3]);
}

#[test]
fn save_destination_defaults() {
    assert_eq!(save_destination(None), "session.bin");
    assert_eq!(save_destination(Some(String::from("mine.bin"))), "mine.bin");
}
