use how::decode::{gate_and_seed, seed_batch, Batch, GenerationLoop, CONTEXT_WINDOW};
use how::errors::PipelineError;
use how::sanitize::sanitize;

const EOS: i32 = 2;

/// Drives the loop against a scripted engine: each call hands out the next
/// (token, piece) pair, endlessly repeating the last one.
fn run_mock(n_prompt: usize, script: &[(i32, &str)]) -> (String, u32, usize) {
    let mut lp = GenerationLoop::begin(n_prompt);
    let mut batch = Batch::new(CONTEXT_WINDOW);
    let mut submissions: usize = 0;
    let mut i: usize = 0;
    for _ in 0..1000 {
        let (token, piece) = script[i.min(script.len() - 1)];
        i += 1;
        if lp.should_stop(EOS, token) {
            lp.finish(EOS, token);
            break;
        }
        lp.advance(&mut batch, EOS, token, piece);
        submissions += 1;
    }
    (lp.output().clone(), lp.tokens_generated(), submissions)
}

#[test]
fn exemplar_fidelity() {
    let script = [(10, "ls"), (11, " -"), (12, "la"), (EOS, "")];
    let (raw, count, _) = run_mock(40, &script);
    assert_eq!(raw, "ls -la");
    assert_eq!(count, 3);
    assert_eq!(sanitize(&raw), "ls -la");
}

#[test]
fn eos_first_terminates_with_empty_output() {
    let script = [(EOS, "")];
    let (raw, count, submissions) = run_mock(40, &script);
    assert_eq!(raw, "");
    assert_eq!(count, 0);
    assert_eq!(submissions, 0);
    assert_eq!(sanitize(&raw), "");
}

#[test]
fn generation_is_bounded_absent_eos() {
    // The engine never produces EOS; the loop still stops after 201 appends.
    let script = [(7, "a")];
    let (raw, count, submissions) = run_mock(4, &script);
    assert_eq!(count, 201);
    assert_eq!(submissions, 201);
    assert_eq!(raw.len(), 201);
}

#[test]
fn two_runs_are_byte_identical() {
    let script = [(5, "du"), (6, " -sh"), (7, " ."), (EOS, "")];
    let first = run_mock(12, &script);
    let second = run_mock(12, &script);
    assert_eq!(first, second);
}

#[test]
fn prompt_length_gate_rejects_long_prompt() {
    let tokens: Vec<i32> = (0..1025).collect();
    let r = gate_and_seed(&tokens);
    assert_eq!(r.err(), Some(PipelineError::PromptTooLong));
}

#[test]
fn prompt_length_gate_accepts_full_window() {
    let tokens: Vec<i32> = (0..1024).collect();
    let r = gate_and_seed(&tokens);
    let batch = r.ok().expect("a full-window prompt fits");
    assert_eq!(batch.n_tokens(), 1024);
}

#[test]
fn seed_batch_marks_only_last_slot() {
    let tokens: Vec<i32> = vec![5, 9, 13];
    let b = seed_batch(&tokens);
    let entries = b.entries();
    assert_eq!(entries.len(), 3);
    for (i, e) in entries.iter().enumerate() {
        assert_eq!(e.token, tokens[i]);
        assert_eq!(e.pos, i as i32);
        assert_eq!(e.seq, 0);
        assert_eq!(e.logits, i == 2);
    }
}

#[test]
fn advance_rebuilds_single_slot_batch() {
    let mut lp = GenerationLoop::begin(7);
    let mut batch = Batch::new(CONTEXT_WINDOW);
    assert!(!lp.should_stop(EOS, 42));
    lp.advance(&mut batch, EOS, 42, "x");
    let entries = batch.entries();
    assert_eq!(entries.len(), 1);
    assert_eq!(entries[0].token, 42);
    assert_eq!(entries[0].pos, 7);
    assert_eq!(entries[0].seq, 0);
    assert!(entries[0].logits);
    assert!(!lp.should_stop(EOS, 43));
    lp.advance(&mut batch, EOS, 43, "y");
    let entries = batch.entries();
    assert_eq!(entries.len(), 1);
    assert_eq!(entries[0].pos, 8);
}

#[test]
fn batch_add_and_clear() {
    let mut b = Batch::new(4);
    assert_eq!(b.n_tokens(), 0);
    b.add(1, 0, 0, false);
    b.add(2, 1, 0, true);
    assert_eq!(b.n_tokens(), 2);
    b.clear();
    assert_eq!(b.n_tokens(), 0);
}

#[test]
fn stop_policy_checks_cap_before_appending() {
    let script = [(7, "a")];
    let (_, count, _) = run_mock(4, &script);
    assert_eq!(count, 201);
    // After the cap is reached, any token stops the loop, EOS or not.
    let mut lp = GenerationLoop::begin(4);
    let mut batch = Batch::new(CONTEXT_WINDOW);
    for _ in 0..201 {
        lp.advance(&mut batch, EOS, 7, "a");
    }
    assert!(lp.should_stop(EOS, 7));
    assert!(lp.should_stop(EOS, EOS));
    assert!(!lp.is_done());
    lp.finish(EOS, 7);
    assert!(lp.is_done());
    assert_eq!(lp.tokens_generated(), 201);
}
