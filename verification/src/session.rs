use vstd::prelude::*;

verus! {

/// Saving a session snapshot failed (the underlying write failed).
#[derive(Debug)]
pub struct SaveInstanceError;

/// Loading a session snapshot failed (missing, unreadable, or incompatible
/// with the configured context window).
#[derive(Debug)]
pub struct LoadInstanceError;

/// The per-turn state machine of a generation session.
#[derive(Clone, Copy, PartialEq, Eq, Structural, Debug)]
pub enum GenPhase {
    Idle,
    DecodingPrompt,
    Generating,
    StoppedByEndToken,
    StoppedByMaxTokens,
}

/// What the session decides after the backend hands it one sampled token.
#[derive(Clone, Copy, PartialEq, Eq, Structural, Debug)]
pub enum StepOutcome {
    /// The token was appended to the turn's output and to the token history;
    /// the caller must feed it back to the backend for the next position.
    /// `first_token` is true exactly on the first token of the turn: it is
    /// the moment to stop the progress indicator.
    Accepted { first_token: bool },
    /// The token was an end-of-generation marker: nothing was appended and
    /// the turn is over.
    GenerationEnded,
}

/// The number of tokens a turn may generate: a negative limit allows none.
pub open spec fn spec_token_budget(max_gen: i32) -> nat {
    if max_gen < 0 {
        0
    } else {
        max_gen as nat
    }
}

/// What a whole decode loop produces, given the backend's per-step responses.
/// `samples[k]` is the token the backend samples at step `k`, paired with
/// whether it is an end-of-generation marker. The loop stops at the first
/// marker, or after `budget` accepted tokens, whichever comes first.
pub open spec fn spec_generate(samples: Seq<(i32, bool)>, budget: nat) -> (Seq<i32>, GenPhase)
    decreases budget,
{
    if budget == 0 || samples.len() == 0 {
        (Seq::empty(), GenPhase::StoppedByMaxTokens)
    } else if samples.first().1 {
        (Seq::empty(), GenPhase::StoppedByEndToken)
    } else {
        let rest = spec_generate(samples.drop_first(), (budget - 1) as nat);
        (seq![samples.first().0] + rest.0, rest.1)
    }
}

/// What a saved snapshot holds: the whole token history at save time.
pub open spec fn spec_snapshot(history: Seq<i32>) -> Seq<i32> {
    history
}

/// What loading a snapshot yields: the saved history, accepted only when it
/// fits the configured context window.
pub open spec fn spec_restore(snapshot: Seq<i32>, ctx_window: u32) -> Option<Seq<i32>> {
    if snapshot.len() <= ctx_window {
        Some(snapshot)
    } else {
        None
    }
}

/// A generation session: the token history bound one-to-one to a backend
/// context, and the state machine of the current turn. The view is the token
/// history, append-only except for a wholesale replacement on load.
pub struct SessionCore {
    tokens: Vec<i32>,
    ctx_window: u32,
    phase: GenPhase,
    produced: Vec<i32>,
    max_gen: usize,
}

impl View for SessionCore {
    type V = Seq<i32>;

    closed spec fn view(&self) -> Seq<i32> {
        self.tokens@
    }
}

impl SessionCore {
    /// The context window the session was configured with.
    pub closed spec fn spec_window(&self) -> u32 {
        self.ctx_window
    }

    /// Where the current turn stands.
    pub closed spec fn spec_phase(&self) -> GenPhase {
        self.phase
    }

    /// The tokens generated so far in the current turn.
    pub closed spec fn spec_produced(&self) -> Seq<i32> {
        self.produced@
    }

    /// The current turn's token budget.
    pub closed spec fn spec_max(&self) -> nat {
        self.max_gen as nat
    }

    /// A fresh session: empty history, idle.
    pub fn new(ctx_window: u32) -> (session: Self)
        ensures
            session@ =~= Seq::<i32>::empty(),
            session.spec_window() == ctx_window,
            session.spec_phase() is Idle,
            session.spec_produced() =~= Seq::<i32>::empty(),
    {
        SessionCore {
            tokens: Vec::new(),
            ctx_window,
            phase: GenPhase::Idle,
            produced: Vec::new(),
            max_gen: 0,
        }
    }

    /// The context window, for configuring the backend context.
    pub fn ctx_window(&self) -> (w: u32)
        ensures
            w == self.spec_window(),
    {
        self.ctx_window
    }

    /// Where the current turn stands.
    pub fn phase(&self) -> (p: GenPhase)
        ensures
            p == self.spec_phase(),
    {
        self.phase
    }

    /// A copy of the token history, ready to be written out as a session
    /// snapshot.
    pub fn snapshot(&self) -> (snap: Vec<i32>)
        ensures
            snap@ == spec_snapshot(self@),
    {
        let src = &self.tokens;
        let mut snap: Vec<i32> = Vec::new();
        let mut k: usize = 0;
        while k < src.len()
            invariant
                k <= src@.len(),
                snap@ =~= src@.take(k as int),
            decreases src@.len() - k,
        {
            snap.push(src[k]);
            k = k + 1;
        }
        proof {
            assert(src@.take(src@.len() as int) =~= src@);
        }
        snap
    }

    /// Replaces the history wholesale with a loaded snapshot, provided it is
    /// compatible with the configured context window; an oversized snapshot
    /// is rejected and leaves the session untouched.
    pub fn accept_loaded(&mut self, snapshot: Vec<i32>) -> (r: Result<(), LoadInstanceError>)
        requires
            old(self).spec_phase() is Idle,
        ensures
            final(self).spec_window() == old(self).spec_window(),
            final(self).spec_phase() is Idle,
            final(self).spec_produced() == old(self).spec_produced(),
            match spec_restore(snapshot@, old(self).spec_window()) {
                Some(history) => r is Ok && final(self)@ == history,
                None => r is Err && final(self)@ == old(self)@,
            },
    {
        if snapshot.len() <= self.ctx_window as usize {
            self.tokens = snapshot;
            Ok(())
        } else {
            Err(LoadInstanceError)
        }
    }

    /// Appends tokens to the history; nothing else changes.
    fn stream_tokens(&mut self, toks: &Vec<i32>)
        ensures
            final(self)@ == old(self)@ + toks@,
            final(self).spec_window() == old(self).spec_window(),
            final(self).spec_phase() == old(self).spec_phase(),
            final(self).spec_produced() == old(self).spec_produced(),
            final(self).spec_max() == old(self).spec_max(),
    {
        let mut k: usize = 0;
        while k < toks.len()
            invariant
                k <= toks@.len(),
                self.tokens@ =~= old(self).tokens@ + toks@.take(k as int),
                self.ctx_window == old(self).ctx_window,
                self.phase == old(self).phase,
                self.produced == old(self).produced,
                self.max_gen == old(self).max_gen,
            decreases toks@.len() - k,
        {
            self.tokens.push(toks[k]);
            k = k + 1;
        }
        proof {
            assert(toks@.take(toks@.len() as int) =~= toks@);
            assert(final(self)@ =~= old(self)@ + toks@);
        }
    }

    /// Starts a turn: appends the compiled prompt tokens to the history and
    /// hands them off for one priming decode pass. A negative limit allows
    /// no generated tokens at all.
    pub fn submit_prompt(&mut self, prompt: &Vec<i32>, max_gen: i32)
        requires
            old(self).spec_phase() is Idle,
        ensures
            final(self)@ == old(self)@ + prompt@,
            final(self).spec_window() == old(self).spec_window(),
            final(self).spec_phase() is DecodingPrompt,
            final(self).spec_produced() =~= Seq::<i32>::empty(),
            final(self).spec_max() == spec_token_budget(max_gen),
    {
        self.produced = Vec::new();
        self.max_gen = if max_gen < 0 {
            0
        } else {
            max_gen as usize
        };
        self.phase = GenPhase::DecodingPrompt;
        self.stream_tokens(prompt);
    }

    /// The priming decode pass is done: token-by-token generation begins.
    pub fn primed(&mut self)
        requires
            old(self).spec_phase() is DecodingPrompt,
        ensures
            final(self)@ == old(self)@,
            final(self).spec_window() == old(self).spec_window(),
            final(self).spec_phase() is Generating,
            final(self).spec_produced() == old(self).spec_produced(),
            final(self).spec_max() == old(self).spec_max(),
    {
        self.phase = GenPhase::Generating;
    }

    /// Whether the turn may accept another token, or has exhausted its
    /// budget and stops with `StoppedByMaxTokens`.
    pub fn poll_continue(&mut self) -> (more: bool)
        requires
            old(self).spec_phase() is Generating,
        ensures
            more == (old(self).spec_produced().len() < old(self).spec_max()),
            more ==> *final(self) == *old(self),
            !more ==> final(self).spec_phase() is StoppedByMaxTokens,
            final(self)@ == old(self)@,
            final(self).spec_window() == old(self).spec_window(),
            final(self).spec_produced() == old(self).spec_produced(),
            final(self).spec_max() == old(self).spec_max(),
    {
        if self.produced.len() < self.max_gen {
            true
        } else {
            self.phase = GenPhase::StoppedByMaxTokens;
            false
        }
    }

    /// Takes the token the backend sampled for the current position. An
    /// end-of-generation marker ends the turn and is not recorded; any other
    /// token is appended to the turn's output and to the history, and
    /// `first_token` reports whether it was the first of the turn.
    pub fn feed(&mut self, token: i32, is_eog: bool) -> (out: StepOutcome)
        requires
            old(self).spec_phase() is Generating,
            old(self).spec_produced().len() < old(self).spec_max(),
        ensures
            final(self).spec_window() == old(self).spec_window(),
            final(self).spec_max() == old(self).spec_max(),
            is_eog ==> {
                &&& out is GenerationEnded
                &&& final(self).spec_phase() is StoppedByEndToken
                &&& final(self)@ == old(self)@
                &&& final(self).spec_produced() == old(self).spec_produced()
            },
            !is_eog ==> {
                &&& out == (StepOutcome::Accepted {
                    first_token: old(self).spec_produced().len() == 0,
                })
                &&& final(self).spec_phase() is Generating
                &&& final(self)@ == old(self)@.push(token)
                &&& final(self).spec_produced() == old(self).spec_produced().push(token)
            },
    {
        if is_eog {
            self.phase = GenPhase::StoppedByEndToken;
            StepOutcome::GenerationEnded
        } else {
            let first_token = self.produced.len() == 0;
            self.produced.push(token);
            self.tokens.push(token);
            StepOutcome::Accepted { first_token }
        }
    }

    /// Ends the turn: hands out the generated tokens and returns to `Idle`,
    /// leaving the history (prompt and generated tokens included) in place.
    pub fn take_result(&mut self) -> (toks: Vec<i32>)
        requires
            old(self).spec_phase() is StoppedByEndToken || old(self).spec_phase()
                is StoppedByMaxTokens,
        ensures
            toks@ == old(self).spec_produced(),
            final(self)@ == old(self)@,
            final(self).spec_window() == old(self).spec_window(),
            final(self).spec_phase() is Idle,
            final(self).spec_produced() =~= Seq::<i32>::empty(),
    {
        let src = &self.produced;
        let mut toks: Vec<i32> = Vec::new();
        let mut k: usize = 0;
        while k < src.len()
            invariant
                k <= src@.len(),
                toks@ =~= src@.take(k as int),
            decreases src@.len() - k,
        {
            toks.push(src[k]);
            k = k + 1;
        }
        proof {
            assert(src@.take(src@.len() as int) =~= src@);
        }
        self.produced = Vec::new();
        self.phase = GenPhase::Idle;
        toks
    }

    /// One whole turn of the decode loop, with the backend's per-step
    /// responses supplied up front: primes with the prompt, then accepts
    /// tokens until the first end-of-generation marker or the budget, and
    /// returns the generated tokens with the phase the loop stopped in.
    /// The history grows by exactly the prompt followed by the output.
    pub fn run_turn(
        &mut self,
        prompt: &Vec<i32>,
        samples: &Vec<(i32, bool)>,
        max_gen: i32,
    ) -> (r: (Vec<i32>, GenPhase))
        requires
            old(self).spec_phase() is Idle,
            samples@.len() >= spec_token_budget(max_gen),
        ensures
            r.0@ == spec_generate(samples@, spec_token_budget(max_gen)).0,
            r.1 == spec_generate(samples@, spec_token_budget(max_gen)).1,
            final(self)@ == old(self)@ + prompt@ + r.0@,
            final(self).spec_window() == old(self).spec_window(),
            final(self).spec_phase() is Idle,
    {
        let ghost budget = spec_token_budget(max_gen);
        self.submit_prompt(prompt, max_gen);
        self.primed();
        proof {
            assert(samples@.skip(0) =~= samples@);
            assert(self.spec_produced() + spec_generate(samples@, budget).0 =~= spec_generate(
                samples@,
                budget,
            ).0);
        }
        let mut k: usize = 0;
        let mut ended = false;
        while !ended
            invariant
                samples@.len() >= budget,
                self.spec_max() == budget,
                self@ == old(self)@ + prompt@ + self.spec_produced(),
                self.spec_window() == old(self).spec_window(),
                !ended ==> {
                    &&& self.spec_phase() is Generating
                    &&& k == self.spec_produced().len()
                    &&& k <= budget
                    &&& spec_generate(samples@, budget).0 == self.spec_produced()
                        + spec_generate(samples@.skip(k as int), (budget - k) as nat).0
                    &&& spec_generate(samples@, budget).1 == spec_generate(
                        samples@.skip(k as int),
                        (budget - k) as nat,
                    ).1
                },
                ended ==> {
                    &&& (self.spec_phase() is StoppedByEndToken || self.spec_phase()
                        is StoppedByMaxTokens)
                    &&& spec_generate(samples@, budget).0 == self.spec_produced()
                    &&& spec_generate(samples@, budget).1 == self.spec_phase()
                },
            decreases budget - k + (if ended { 0int } else { 1int }),
        {
            let more = self.poll_continue();
            if !more {
                proof {
                    assert(k == budget);
                    assert(samples@.skip(k as int).len() >= 0);
                    assert(spec_generate(samples@.skip(k as int), 0).0 =~= Seq::<i32>::empty());
                    assert(self.spec_produced() + Seq::<i32>::empty() =~= self.spec_produced());
                }
                ended = true;
            } else {
                proof {
                    assert(k < budget);
                    assert(samples@.skip(k as int).len() > 0);
                    assert(samples@.skip(k as int).first() == samples@[k as int]);
                }
                let ghost pre = self.spec_produced();
                let pair = samples[k];
                let step = self.feed(pair.0, pair.1);
                match step {
                    StepOutcome::GenerationEnded => {
                        proof {
                            assert(spec_generate(samples@.skip(k as int), (budget - k) as nat).0
                                =~= Seq::<i32>::empty());
                            assert(self.spec_produced() + Seq::<i32>::empty()
                                =~= self.spec_produced());
                        }
                        ended = true;
                    },
                    StepOutcome::Accepted { first_token: _ } => {
                        proof {
                            assert(samples@.skip(k as int).drop_first() =~= samples@.skip(
                                k as int + 1,
                            ));
                            let tail = spec_generate(
                                samples@.skip(k as int + 1),
                                (budget - k - 1) as nat,
                            );
                            assert(spec_generate(samples@.skip(k as int), (budget - k) as nat).0
                                =~= seq![samples@[k as int].0] + tail.0);
                            assert(spec_generate(samples@.skip(k as int), (budget - k) as nat).1
                                == tail.1);
                            assert(pre + (seq![samples@[k as int].0] + tail.0) =~= pre.push(
                                samples@[k as int].0,
                            ) + tail.0);
                        }
                        k = k + 1;
                    },
                }
            }
        }
        let stop_phase = self.phase();
        let toks = self.take_result();
        (toks, stop_phase)
    }
}

/// Builds the path a session snapshot is written to: the configured
/// destination, or the default file name when none was given.
pub fn save_destination(dest: Option<String>) -> (path: String)
    ensures
        match dest {
            Some(p) => path@ == p@,
            None => path@ == "session.bin"@,
        },
{
    match dest {
        Some(p) => p,
        None => "session.bin".to_owned(),
    }
}

/// Law: greedy generation is deterministic. Two decode loops that see the
/// same backend responses and the same token budget produce the same output
/// tokens and stop for the same reason.
pub proof fn lemma_greedy_generation_deterministic(
    samples1: Seq<(i32, bool)>,
    samples2: Seq<(i32, bool)>,
    budget1: nat,
    budget2: nat,
)
    requires
        samples1 == samples2,
        budget1 == budget2,
    ensures
        spec_generate(samples1, budget1) == spec_generate(samples2, budget2),
{
}

/// Law: with a budget of `budget` and a backend that never emits an
/// end-of-generation marker, the decode loop performs exactly `budget`
/// generation steps and stops with `StoppedByMaxTokens`.
pub proof fn lemma_stops_at_max_tokens(samples: Seq<(i32, bool)>, budget: nat)
    requires
        samples.len() >= budget,
        forall|k: int| 0 <= k < samples.len() ==> !(#[trigger] samples[k]).1,
    ensures
        spec_generate(samples, budget).0.len() == budget,
        spec_generate(samples, budget).1 is StoppedByMaxTokens,
    decreases budget,
{
    if budget > 0 {
        assert(!samples[0].1);
        lemma_stops_at_max_tokens(samples.drop_first(), (budget - 1) as nat);
    }
}

/// Law: a session snapshot round-trips. Saving a history that fits the
/// context window and loading it back yields exactly the history that was
/// saved.
pub proof fn lemma_save_load_round_trip(history: Seq<i32>, ctx_window: u32)
    requires
        history.len() <= ctx_window,
    ensures
        spec_restore(spec_snapshot(history), ctx_window) == Some(history),
{
}

} // verus!
