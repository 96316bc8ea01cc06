use rand::{Rng, SeedableRng};
use rand_chacha::ChaCha8Rng;
use salty::protocol::check_candidate;
use salty::{parse_config, run_batch, search_batch, FoundResult, MinerConfig, RawConfig};

fn scenario(pattern: &str) -> MinerConfig {
    parse_config(RawConfig {
        factory: "0x0000000000000000000000000000000000000000".to_string(),
        caller: "0x1111111111111111111111111111111111111111".to_string(),
        // Keccak-256 of the empty byte sequence.
        codehash: "0xc5d2460186f7233c927e7db2dcc703c0e500b653ca82273b7bfad8045d85a470".to_string(),
        worksize: 1,
        pattern: pattern.to_string(),
    })
    .unwrap()
}

fn found(salt: &str, address: &str, pattern: &str) -> FoundResult {
    FoundResult { salt: salt.to_string(), address: address.to_string(), pattern: pattern.to_string() }
}

#[test]
fn batch_is_reproducible() {
    let config = scenario("0x00");
    let first = run_batch(&config, 42, 7, 1000);
    let second = run_batch(&config, 42, 7, 1000);
    assert_eq!(first, second);
    assert!(!first.0.is_empty());
}

#[test]
fn end_to_end_scenario_has_its_known_found_list() {
    let config = scenario("0x00");
    let (list, attempts) = run_batch(&config, 42, 7, 1000);
    assert_eq!(attempts, 1000);
    assert_eq!(
        list,
        vec![
            found(
                "0x1111111111111111111111111111111111111111a5faadaac8946b8a0b6dc5a4",
                "0x00a4a7c77569af12811ea587bc3fe7b1b752902d",
                "0x00"
            ),
            found(
                "0x1111111111111111111111111111111111111111a5faadaad6956b8a0b6dc5a4",
                "0x0044ef49d77f42d347073681e22d8e785e1fc3c2",
                "0x00"
            ),
        ]
    );
}

#[test]
fn known_found_list_of_seed_zero() {
    let config = scenario("00");
    let (list, attempts) = run_batch(&config, 0, 0, 600);
    assert_eq!(attempts, 600);
    let addresses: Vec<&str> = list.iter().map(|f| f.address.as_str()).collect();
    assert_eq!(
        addresses,
        vec![
            "0x000d4bd9bbd05950b8f6323fdd1ff78d5f9c5278",
            "0x0065acfeb0fd334ef4d8b6986759dd0426369e6e",
            "0x00307a0aca250a00623cef701b118890961e6fe4",
            "0x0021ada67be5c9008ecce4d64a2c9a0487b9a09e",
            "0x0095fe2168feabfd25be8f9efe43eb56d507f841",
        ]
    );
    assert_eq!(list[0].salt, "0x11111111111111111111111111111111111111116c67375f35a7e281320dfbb2");
}

#[test]
fn attempts_are_the_batch_size() {
    let config = scenario("0x00");
    for batch_size in [0u32, 1, 2, 17, 300] {
        let (_, attempts) = run_batch(&config, 5, 6, batch_size);
        assert_eq!(attempts, batch_size);
    }
}

#[test]
fn empty_batch_finds_nothing() {
    let config = scenario("0x00");
    assert_eq!(run_batch(&config, 42, 7, 0), (vec![], 0));
    assert_eq!(search_batch(&config, &[1, 2, 3, 4], 99, 0), vec![]);
}

#[test]
fn workers_search_different_streams() {
    let config = scenario("0x00");
    let (seven, _) = run_batch(&config, 42, 7, 1000);
    let (eight, _) = run_batch(&config, 42, 8, 1000);
    assert_eq!(seven.len(), 2);
    assert_eq!(eight.len(), 6);
    // The salt segment is bytes 20 to 23 of the salt: characters 42 to 49 of its text.
    assert_eq!(&seven[0].salt[42..50], "a5faadaa");
    assert_eq!(&eight[0].salt[42..50], "2cd9834d");
    assert_ne!(seven, eight);
}

#[test]
fn stream_is_seeded_with_seed_xor_worker() {
    let config = scenario("0x00");
    // 42 ^ 7 == 45 ^ 0 == 0 ^ 45
    assert_eq!(run_batch(&config, 42, 7, 800), run_batch(&config, 45, 0, 800));
    assert_eq!(run_batch(&config, 42, 7, 800), run_batch(&config, 0, 45, 800));
    // 42 + 7 == 49, and 49 ^ 0 is another stream
    assert_ne!(run_batch(&config, 42, 7, 800), run_batch(&config, 49, 0, 800));
    // the worker id is widened, not mixed into the upper half
    let high = 1u64 << 40;
    assert_eq!(run_batch(&config, high | 42, 7, 800), run_batch(&config, high | 45, 0, 800));
    assert_ne!(run_batch(&config, high | 42, 7, 800), run_batch(&config, 42, 7, 800));
}

#[test]
fn batch_draws_segment_and_nonce_from_chacha8() {
    let config = scenario("0x00");
    let mut rng = ChaCha8Rng::seed_from_u64(1 ^ 0);
    let segment: [u8; 4] = rng.gen();
    let start_nonce: u64 = rng.gen();
    assert_eq!(segment, [0xb1, 0xea, 0x6b, 0xd8]);
    assert_eq!(start_nonce, 0x98b82b0336070665);
    let (list, _) = run_batch(&config, 1, 0, 600);
    assert_eq!(list, search_batch(&config, &segment, start_nonce, 600));
    assert_eq!(
        list,
        vec![
            found(
                "0x1111111111111111111111111111111111111111b1ea6bd888060736032bb898",
                "0x002089eb5c75cf6c94039edfe20c58605175332f",
                "0x00"
            ),
            found(
                "0x1111111111111111111111111111111111111111b1ea6bd822080736032bb898",
                "0x00736dea5db0108c1c86135f964cbe10e80c26f2",
                "0x00"
            ),
        ]
    );
}

#[test]
fn search_reports_every_match_in_nonce_order() {
    let config = scenario("0x00");
    let segment = [0xde, 0xad, 0xbe, 0xef];
    let list = search_batch(&config, &segment, 0, 1500);
    let mut expected = Vec::new();
    for nonce in 0..1500u64 {
        let checked = check_candidate(
            &config.factory,
            &config.caller,
            &config.codehash,
            &config.pattern,
            &segment,
            nonce,
        );
        if let Some(report) = checked {
            expected.push(report);
        }
    }
    assert_eq!(list, expected);
    assert_eq!(list[0].salt, "0x1111111111111111111111111111111111111111deadbeef9701000000000000");
    assert!(list.len() > 1);
}

#[test]
fn search_wraps_the_nonce_at_the_end_of_its_range() {
    let config = scenario("0x00");
    let segment = [0xde, 0xad, 0xbe, 0xef];
    // Nonce 407 is reached from u64::MAX - 2 after three steps to zero and 407 more.
    let list = search_batch(&config, &segment, u64::MAX - 2, 3 + 408);
    let wrapped: Vec<&FoundResult> =
        list.iter().filter(|f| f.salt.ends_with("deadbeef9701000000000000")).collect();
    assert_eq!(wrapped.len(), 1);
    assert_eq!(wrapped[0].address, "0x0069ed1d4118a46d4f189d02e705b274616071b5");
    assert_eq!(list.last().unwrap(), wrapped[0]);
    let short = search_batch(&config, &segment, u64::MAX - 2, 3 + 407);
    assert!(short.iter().all(|f| !f.salt.ends_with("deadbeef9701000000000000")));
}

#[test]
fn longer_pattern_narrows_the_found_list() {
    let one = scenario("0x00");
    let two = scenario("0x00a4");
    let (all, _) = run_batch(&one, 42, 7, 1000);
    let (narrow, _) = run_batch(&two, 42, 7, 1000);
    assert_eq!(narrow.len(), 1);
    assert_eq!(narrow[0].salt, all[0].salt);
    assert_eq!(narrow[0].address, all[0].address);
    assert_eq!(narrow[0].pattern, "0x00a4");
}
