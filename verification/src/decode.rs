//! The incremental decode loop's data: the bounded batch handed to the
//! engine at each submission, the seeding of the prompt, and the loop's
//! own state with its stop policy. The engine itself stays outside; it
//! receives batches and hands back a sampled token and its text.

use crate::errors::PipelineError;
use vstd::prelude::*;
use vstd::string::StringExecFns;

verus! {

/// The context window: how many token positions a session holds, prompt
/// included. A prompt that tokenizes past this bound is rejected.
pub const CONTEXT_WINDOW: usize = 1024;

/// The hard cap on generated tokens: the loop stops before appending
/// another token once the count has passed this bound.
pub const MAX_OUTPUT_TOKENS: u32 = 200;

/// One slot of a batch: a token to decode at a position of sequence
/// `seq`, with `logits` set when the engine is to keep this position's
/// logits for sampling.
#[derive(Clone, Copy, Debug, PartialEq, Eq, Structural)]
pub struct BatchEntry {
    pub token: i32,
    pub pos: i32,
    pub seq: i32,
    pub logits: bool,
}

/// A bounded-capacity batch of slots, submitted to the engine in one
/// call.
pub struct Batch {
    entries: Vec<BatchEntry>,
    capacity: usize,
}

impl Batch {
    /// The slots, in submission order.
    pub closed spec fn entries_seq(self) -> Seq<BatchEntry> {
        self.entries@
    }

    /// The fixed capacity the batch was created with.
    pub closed spec fn cap(self) -> nat {
        self.capacity as nat
    }

    /// The batch fits its capacity and holds at most one slot per
    /// position.
    pub open spec fn wf(self) -> bool {
        &&& self.entries_seq().len() <= self.cap()
        &&& forall|i: int, j: int|
            0 <= i < j < self.entries_seq().len() ==> self.entries_seq()[i].pos
                != self.entries_seq()[j].pos
    }

    /// Fit for submission: non-empty, well formed, and exactly the last
    /// slot asks for logits — the continuation point to sample from.
    pub open spec fn ready(self) -> bool {
        &&& self.wf()
        &&& self.entries_seq().len() >= 1
        &&& forall|i: int|
            0 <= i < self.entries_seq().len() ==> (self.entries_seq()[i].logits <==> i
                == self.entries_seq().len() - 1)
    }

    /// An empty batch of the given capacity.
    pub fn new(capacity: usize) -> (b: Batch)
        ensures
            b.entries_seq() == Seq::<BatchEntry>::empty(),
            b.cap() == capacity,
    {
        Batch { entries: Vec::new(), capacity }
    }

    /// Appends one slot; the caller must leave room for it.
    pub fn add(&mut self, token: i32, pos: i32, seq: i32, logits: bool)
        requires
            old(self).entries_seq().len() < old(self).cap(),
        ensures
            final(self).entries_seq() == old(self).entries_seq().push(
                (BatchEntry { token, pos, seq, logits }),
            ),
            final(self).cap() == old(self).cap(),
    {
        self.entries.push(BatchEntry { token, pos, seq, logits });
    }

    /// Empties the batch; the capacity stays.
    pub fn clear(&mut self)
        ensures
            final(self).entries_seq() == Seq::<BatchEntry>::empty(),
            final(self).cap() == old(self).cap(),
    {
        self.entries.clear();
    }

    /// How many slots the batch holds.
    pub fn n_tokens(&self) -> (n: usize)
        ensures
            n == self.entries_seq().len(),
    {
        self.entries.len()
    }

    /// Read access to the slots, for whoever performs the submission.
    pub fn entries(&self) -> (v: &Vec<BatchEntry>)
        ensures
            v@ == self.entries_seq(),
    {
        &self.entries
    }
}

/// The seed batch of a run: every prompt token at its own position on
/// sequence 0, with logits requested only for the last one.
pub fn seed_batch(tokens: &Vec<i32>) -> (b: Batch)
    requires
        1 <= tokens@.len() <= CONTEXT_WINDOW,
    ensures
        b.cap() == CONTEXT_WINDOW,
        b.entries_seq().len() == tokens@.len(),
        forall|i: int|
            0 <= i < tokens@.len() ==> b.entries_seq()[i] == (BatchEntry {
                token: tokens@[i],
                pos: i as i32,
                seq: 0,
                logits: i == tokens@.len() - 1,
            }),
        b.ready(),
{
    let mut b = Batch::new(CONTEXT_WINDOW);
    let n = tokens.len();
    let mut i: usize = 0;
    while i < n
        invariant
            n == tokens@.len(),
            1 <= n <= CONTEXT_WINDOW,
            i <= n,
            b.cap() == CONTEXT_WINDOW,
            b.entries_seq().len() == i,
            forall|k: int|
                0 <= k < i ==> b.entries_seq()[k] == (BatchEntry {
                    token: tokens@[k],
                    pos: k as i32,
                    seq: 0,
                    logits: k == n - 1,
                }),
        decreases n - i,
    {
        let last = i == n - 1;
        b.add(tokens[i], i as i32, 0, last);
        i = i + 1;
    }
    b
}

/// Applies the context-window bound: a prompt that fits yields the seed
/// batch; a longer one yields the soft `PromptTooLong` kind, and nothing
/// is ever submitted.
pub fn gate_and_seed(tokens: &Vec<i32>) -> (r: Result<Batch, PipelineError>)
    requires
        tokens@.len() >= 1,
    ensures
        r is Ok <==> tokens@.len() <= CONTEXT_WINDOW,
        r is Err ==> r->Err_0 == PipelineError::PromptTooLong,
        r is Ok ==> r->Ok_0.ready() && r->Ok_0.cap() == CONTEXT_WINDOW && r->Ok_0.entries_seq().len()
            == tokens@.len() && (forall|i: int|
            0 <= i < tokens@.len() ==> r->Ok_0.entries_seq()[i] == (BatchEntry {
                token: tokens@[i],
                pos: i as i32,
                seq: 0,
                logits: i == tokens@.len() - 1,
            })),
{
    if tokens.len() > CONTEXT_WINDOW {
        Err(PipelineError::PromptTooLong)
    } else {
        Ok(seed_batch(tokens))
    }
}

/// The loop's state as specifications see it: the next free position of
/// the session, how many tokens were appended, the accumulated text, and
/// whether a stop condition has been reached.
pub ghost struct GenModel {
    pub n_cur: int,
    pub output_tokens: int,
    pub buffer: Seq<char>,
    pub done: bool,
}

/// One sampling step as specifications see it: the token the engine
/// sampled and the text that token detokenizes to.
pub ghost struct GenEvent {
    pub token: i32,
    pub piece: Seq<char>,
}

/// The stop policy, checked before a token is appended: the engine's
/// end-of-sequence token, or a count already past the cap.
pub open spec fn stop_now(m: GenModel, eos: i32, token: i32) -> bool {
    token == eos || m.output_tokens > MAX_OUTPUT_TOKENS as int
}

/// One transition of the loop. A finished state never moves again; a
/// stopping event only marks the state finished; any other event appends
/// the event's text and advances position and count by one.
pub open spec fn step_spec(m: GenModel, eos: i32, ev: GenEvent) -> GenModel {
    if m.done {
        m
    } else if stop_now(m, eos, ev.token) {
        GenModel { done: true, ..m }
    } else {
        GenModel {
            n_cur: m.n_cur + 1,
            output_tokens: m.output_tokens + 1,
            buffer: m.buffer + ev.piece,
            done: false,
        }
    }
}

/// The loop run to the end of a sequence of events.
pub open spec fn run_spec(m: GenModel, eos: i32, evs: Seq<GenEvent>) -> GenModel
    decreases evs.len(),
{
    if evs.len() == 0 {
        m
    } else {
        run_spec(step_spec(m, eos, evs[0]), eos, evs.drop_first())
    }
}

/// The state right after the seed batch was submitted: the session holds
/// `n_prompt` positions, nothing was generated yet.
pub open spec fn initial_model(n_prompt: int) -> GenModel {
    GenModel { n_cur: n_prompt, output_tokens: 0, buffer: Seq::empty(), done: false }
}

/// The generation loop's own state. The engine's session advances in
/// lockstep with it: `advance` hands back the exact single-slot batch the
/// caller must submit next.
pub struct GenerationLoop {
    n_cur: i32,
    output_tokens: u32,
    buffer: String,
    done: bool,
}

impl GenerationLoop {
    /// The state as specifications see it.
    pub closed spec fn model(self) -> GenModel {
        GenModel {
            n_cur: self.n_cur as int,
            output_tokens: self.output_tokens as int,
            buffer: self.buffer@,
            done: self.done,
        }
    }

    /// The counters stay in the bounds that a run from a fitting prompt
    /// can reach, so they never overflow.
    pub open spec fn wf(self) -> bool {
        &&& 0 <= self.model().output_tokens <= MAX_OUTPUT_TOKENS as int + 1
        &&& 1 <= self.model().n_cur <= CONTEXT_WINDOW as int + self.model().output_tokens
    }

    /// A fresh loop over a session seeded with `n_prompt` prompt tokens.
    pub fn begin(n_prompt: usize) -> (s: GenerationLoop)
        requires
            1 <= n_prompt <= CONTEXT_WINDOW,
        ensures
            s.model() == initial_model(n_prompt as int),
            s.wf(),
    {
        GenerationLoop {
            n_cur: n_prompt as i32,
            output_tokens: 0,
            buffer: String::new(),
            done: false,
        }
    }

    /// The stop check on a freshly sampled token, before anything is
    /// appended.
    pub fn should_stop(&self, eos: i32, sampled: i32) -> (r: bool)
        ensures
            r == stop_now(self.model(), eos, sampled),
    {
        sampled == eos || self.output_tokens > MAX_OUTPUT_TOKENS
    }

    /// Marks the loop finished on a stopping token: nothing is appended
    /// and nothing may be submitted any more.
    pub fn finish(&mut self, eos: i32, sampled: i32)
        requires
            !old(self).model().done,
            stop_now(old(self).model(), eos, sampled),
        ensures
            final(self).model() == step_spec(
                old(self).model(),
                eos,
                (GenEvent { token: sampled, piece: Seq::empty() }),
            ),
            old(self).wf() ==> final(self).wf(),
    {
        self.done = true;
    }

    /// One accepted step: the sampled token's text is appended, the
    /// counters advance, and `batch` is rebuilt to hold exactly that
    /// token at the position just consumed, logits requested.
    pub fn advance(&mut self, batch: &mut Batch, eos: i32, sampled: i32, piece: &str)
        requires
            old(self).wf(),
            !old(self).model().done,
            !stop_now(old(self).model(), eos, sampled),
            old(batch).cap() >= 1,
        ensures
            final(self).wf(),
            final(self).model() == step_spec(
                old(self).model(),
                eos,
                (GenEvent { token: sampled, piece: piece@ }),
            ),
            final(batch).cap() == old(batch).cap(),
            final(batch).ready(),
            final(batch).entries_seq() =~= seq![
                (BatchEntry {
                    token: sampled,
                    pos: old(self).model().n_cur as i32,
                    seq: 0,
                    logits: true,
                }),
            ],
    {
        batch.clear();
        batch.add(sampled, self.n_cur, 0, true);
        self.buffer.append(piece);
        self.n_cur = self.n_cur + 1;
        self.output_tokens = self.output_tokens + 1;
    }

    /// Whether a stop condition has been reached.
    pub fn is_done(&self) -> (r: bool)
        ensures
            r == self.model().done,
    {
        self.done
    }

    /// How many tokens were appended so far.
    pub fn tokens_generated(&self) -> (n: u32)
        ensures
            n == self.model().output_tokens,
    {
        self.output_tokens
    }

    /// The raw generated text accumulated so far.
    pub fn output(&self) -> (r: &String)
        ensures
            r@ == self.model().buffer,
    {
        &self.buffer
    }
}

proof fn lemma_run_done_absorbs(m: GenModel, eos: i32, evs: Seq<GenEvent>)
    requires
        m.done,
    ensures
        run_spec(m, eos, evs) == m,
    decreases evs.len(),
{
    if evs.len() > 0 {
        lemma_run_done_absorbs(m, eos, evs.drop_first());
    }
}

proof fn lemma_run_output_bound(m: GenModel, eos: i32, evs: Seq<GenEvent>)
    requires
        m.output_tokens <= MAX_OUTPUT_TOKENS as int + 1,
    ensures
        run_spec(m, eos, evs).output_tokens <= MAX_OUTPUT_TOKENS as int + 1,
    decreases evs.len(),
{
    if evs.len() > 0 {
        lemma_run_output_bound(step_spec(m, eos, evs[0]), eos, evs.drop_first());
    }
}

proof fn lemma_run_counts_steps(m: GenModel, eos: i32, evs: Seq<GenEvent>)
    requires
        !m.done,
    ensures
        run_spec(m, eos, evs).done || run_spec(m, eos, evs).output_tokens == m.output_tokens
            + evs.len(),
    decreases evs.len(),
{
    if evs.len() > 0 {
        let m1 = step_spec(m, eos, evs[0]);
        if m1.done {
            lemma_run_done_absorbs(m1, eos, evs.drop_first());
        } else {
            lemma_run_counts_steps(m1, eos, evs.drop_first());
        }
    }
}

/// Bounded generation: however the engine behaves, a run from a fresh
/// state appends at most 201 tokens, and any run of more than 201 steps
/// has reached a stop condition.
pub proof fn lemma_generation_bounded(n_prompt: int, eos: i32, evs: Seq<GenEvent>)
    ensures
        run_spec(initial_model(n_prompt), eos, evs).output_tokens <= MAX_OUTPUT_TOKENS as int + 1,
        evs.len() > MAX_OUTPUT_TOKENS as int + 1 ==> run_spec(initial_model(n_prompt), eos, evs).done,
{
    lemma_run_output_bound(initial_model(n_prompt), eos, evs);
    lemma_run_counts_steps(initial_model(n_prompt), eos, evs);
}

/// Deterministic output: the loop's final state — the generated text
/// included — is a function of the initial state, the end-of-sequence
/// token and the events alone; two runs over the same events agree.
pub proof fn lemma_run_deterministic(
    m1: GenModel,
    m2: GenModel,
    eos: i32,
    evs1: Seq<GenEvent>,
    evs2: Seq<GenEvent>,
)
    requires
        m1 == m2,
        evs1 == evs2,
    ensures
        run_spec(m1, eos, evs1) == run_spec(m2, eos, evs2),
{
}

} // verus!
