use salty::{
    init_worker, parse_config, run_batch, run_batch_wasm, set_stop, BatchResult, ConfigError,
    RawConfig, UninitializedWorkerError, WorkerState,
};

fn raw(pattern: &str) -> RawConfig {
    RawConfig {
        factory: "0x0000000000000000000000000000000000000000".to_string(),
        caller: "0x1111111111111111111111111111111111111111".to_string(),
        codehash: "0xc5d2460186f7233c927e7db2dcc703c0e500b653ca82273b7bfad8045d85a470".to_string(),
        worksize: 1,
        pattern: pattern.to_string(),
    }
}

fn batch(seed: u64, worker_id: u32, batch_size: u32) -> BatchResult {
    let config = parse_config(raw("0x00")).unwrap();
    let (found, attempts) = run_batch(&config, seed, worker_id, batch_size);
    BatchResult { found, attempts }
}

#[test]
fn batch_before_init_fails() {
    let mut state = WorkerState::new();
    assert_eq!(run_batch_wasm(&mut state, 10), Err(UninitializedWorkerError));
    assert_eq!(run_batch_wasm(&mut state, 0), Err(UninitializedWorkerError));
}

#[test]
fn init_with_bad_config_fails_and_leaves_the_worker_uninitialized() {
    let mut state = WorkerState::new();
    assert_eq!(init_worker(&mut state, raw(""), 1, 2), Err(ConfigError::EmptyPattern));
    assert_eq!(run_batch_wasm(&mut state, 10), Err(UninitializedWorkerError));
}

#[test]
fn failed_init_keeps_the_earlier_configuration() {
    let mut state = WorkerState::new();
    assert_eq!(init_worker(&mut state, raw("0x00"), 42, 7), Ok(()));
    assert!(init_worker(&mut state, raw("zz"), 1, 1).is_err());
    assert_eq!(run_batch_wasm(&mut state, 1000), Ok(batch(42, 7, 1000)));
}

#[test]
fn batches_run_with_consecutive_seeds() {
    let mut state = WorkerState::new();
    init_worker(&mut state, raw("0x00"), 42, 7).unwrap();
    let first = run_batch_wasm(&mut state, 1000).unwrap();
    let second = run_batch_wasm(&mut state, 1000).unwrap();
    let third = run_batch_wasm(&mut state, 1000).unwrap();
    assert_eq!(first, batch(42, 7, 1000));
    assert_eq!(second, batch(43, 7, 1000));
    assert_eq!(third, batch(44, 7, 1000));
    assert_eq!(first.attempts, 1000);
    assert_eq!(first.found.len(), 2);
    assert_ne!(first, second);
}

#[test]
fn stopped_worker_returns_nothing_and_keeps_its_seed() {
    let mut state = WorkerState::new();
    init_worker(&mut state, raw("0x00"), 42, 7).unwrap();
    assert_eq!(run_batch_wasm(&mut state, 1000), Ok(batch(42, 7, 1000)));
    set_stop(&mut state, true);
    let stopped = run_batch_wasm(&mut state, 1000).unwrap();
    assert_eq!(stopped, BatchResult { found: vec![], attempts: 0 });
    set_stop(&mut state, true);
    assert_eq!(run_batch_wasm(&mut state, 5).unwrap().attempts, 0);
    set_stop(&mut state, false);
    assert_eq!(run_batch_wasm(&mut state, 1000), Ok(batch(43, 7, 1000)));
}

#[test]
fn stop_is_looked_at_before_the_configuration() {
    let mut state = WorkerState::new();
    set_stop(&mut state, true);
    assert_eq!(run_batch_wasm(&mut state, 10), Ok(BatchResult { found: vec![], attempts: 0 }));
    set_stop(&mut state, false);
    assert_eq!(run_batch_wasm(&mut state, 10), Err(UninitializedWorkerError));
}

#[test]
fn init_clears_the_stop_flag_and_resets_the_seed() {
    let mut state = WorkerState::new();
    init_worker(&mut state, raw("0x00"), 42, 7).unwrap();
    run_batch_wasm(&mut state, 10).unwrap();
    set_stop(&mut state, true);
    init_worker(&mut state, raw("0x00"), 0, 0).unwrap();
    assert_eq!(run_batch_wasm(&mut state, 600), Ok(batch(0, 0, 600)));
}

#[test]
fn seed_is_widened_from_32_bits_and_wraps_at_64() {
    let mut state = WorkerState::new();
    init_worker(&mut state, raw("0x00"), u32::MAX, 3).unwrap();
    assert_eq!(run_batch_wasm(&mut state, 300), Ok(batch(u32::MAX as u64, 3, 300)));
    assert_eq!(run_batch_wasm(&mut state, 300), Ok(batch(u32::MAX as u64 + 1, 3, 300)));
}

#[test]
fn empty_batch_still_moves_the_seed() {
    let mut state = WorkerState::new();
    init_worker(&mut state, raw("0x00"), 41, 7).unwrap();
    assert_eq!(run_batch_wasm(&mut state, 0), Ok(BatchResult { found: vec![], attempts: 0 }));
    assert_eq!(run_batch_wasm(&mut state, 1000), Ok(batch(42, 7, 1000)));
}

#[test]
fn uninitialized_worker_error_has_its_text() {
    assert_eq!(UninitializedWorkerError.message(), "Worker not initialized");
}
