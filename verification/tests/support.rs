use loadgen::cli::{Args, Command};
use loadgen::config::{ConfigError, LoadConfig, DEFAULT_MAX_IN_FLIGHT_MULTIPLIER};
use loadgen::credentials::{cached_still_usable, expiry_or_default, DEFAULT_TTL_MS, REFRESH_MARGIN_MS};
use loadgen::greeting::{contains_chars, Response};
use loadgen::request::{fresh_request, make_request};
use loadgen::setup::insertion_batches;

#[test]
fn zero_rate_is_rejected() {
    assert!(matches!(LoadConfig::new(0, 1000, 50), Err(ConfigError::ZeroRate)));
}

#[test]
fn one_account_pool_is_rejected() {
    assert!(matches!(LoadConfig::new(100, 1, 50), Err(ConfigError::PoolTooSmall)));
}

#[test]
fn headroom_below_the_floor_is_rejected() {
    assert!(matches!(LoadConfig::new(1, 1000, 5), Err(ConfigError::HeadroomTooSmall)));
}

#[test]
fn valid_configuration_keeps_its_parameters() {
    let c = LoadConfig::new(100, 1000, 50).expect("a valid configuration");
    assert_eq!(c.rate_per_second, 100);
    assert_eq!(c.account_pool_size, 1000);
    assert_eq!(c.max_in_flight_multiplier, 50);
    assert_eq!(c.max_in_flight(), 5000);
}

#[test]
fn default_multiplier_is_fifty() {
    let c = LoadConfig::with_default_multiplier(100, 1000).expect("a valid configuration");
    assert_eq!(c.max_in_flight_multiplier, DEFAULT_MAX_IN_FLIGHT_MULTIPLIER);
    assert_eq!(c.max_in_flight(), 5000);
}

#[test]
fn rejections_carry_a_description() {
    assert!(!ConfigError::ZeroRate.describe().is_empty());
    assert!(!ConfigError::PoolTooSmall.describe().is_empty());
    assert!(!ConfigError::HeadroomTooSmall.describe().is_empty());
}

#[test]
fn cached_credentials_are_used_until_the_refresh_margin() {
    let now = 1_000_000;
    assert!(cached_still_usable(now + REFRESH_MARGIN_MS + 1, now));
    assert!(!cached_still_usable(now + REFRESH_MARGIN_MS, now));
    assert!(!cached_still_usable(now, now));
    assert!(!cached_still_usable(0, now));
}

#[test]
fn missing_expiry_defaults_to_one_hour() {
    assert_eq!(expiry_or_default(Some(42), 1000), 42);
    assert_eq!(expiry_or_default(None, 1000), 1000 + DEFAULT_TTL_MS);
}

#[test]
fn insertion_batches_tile_the_missing_range() {
    let batches = insertion_batches(0, 25, 10);
    assert_eq!(batches, vec![(1, 10), (11, 20), (21, 25)]);
}

#[test]
fn one_short_batch_suffices_for_a_small_gap() {
    assert_eq!(insertion_batches(5, 8, 10_000), vec![(6, 8)]);
}

#[test]
fn large_setup_splits_into_full_batches() {
    let batches = insertion_batches(500_000, 1_000_000, 10_000);
    assert_eq!(batches.len(), 50);
    assert_eq!(batches[0], (500_001, 510_000));
    assert_eq!(batches[49], (990_001, 1_000_000));
    for w in batches.windows(2) {
        assert_eq!(w[1].0, w[0].1 + 1);
    }
}

#[test]
fn request_identifiers_are_distinct_and_in_range() {
    for draw_a in 0..20u32 {
        for draw_b in 0..20u32 {
            let r = make_request(5, 1, draw_a, draw_b);
            assert_ne!(r.payer_id, r.payee_id);
            assert!((1..=5).contains(&r.payer_id));
            assert!((1..=5).contains(&r.payee_id));
        }
    }
}

#[test]
fn random_requests_respect_the_smallest_pool() {
    for _ in 0..100 {
        let r = fresh_request(2, 7);
        assert_ne!(r.payer_id, r.payee_id);
        assert!((1..=2).contains(&r.payer_id));
        assert!((1..=2).contains(&r.payee_id));
        assert_eq!(r.amount, 7);
    }
}

#[test]
fn greeting_with_the_marker_counts_as_success() {
    let ok = Response { greeting: "Hello reinvent, connected to DSQL successfully!".to_string() };
    let bad = Response { greeting: "Hello reinvent, could not reach the database".to_string() };
    assert!(ok.indicates_success());
    assert!(!bad.indicates_success());
}

#[test]
fn substring_search_handles_the_edges() {
    assert!(contains_chars("abc", ""));
    assert!(contains_chars("", ""));
    assert!(!contains_chars("", "a"));
    assert!(contains_chars("abc", "abc"));
    assert!(!contains_chars("abc", "abcd"));
    assert!(contains_chars("aaab", "aab"));
    assert!(!contains_chars("acac", "aca_"));
}

#[test]
fn commands_carry_their_parameters() {
    let args = Args { command: Command::SustainedLoad { invocations_per_sec: 100, accounts: 1000 } };
    match args.command {
        Command::SustainedLoad { invocations_per_sec, accounts } => {
            assert_eq!(invocations_per_sec, 100);
            assert_eq!(accounts, 1000);
        }
        _ => panic!("expected the sustained load command"),
    }
    assert!(matches!(Command::SetupCh04, Command::SetupCh04));
    assert!(matches!(Command::Setup { accounts: 5 }, Command::Setup { accounts: 5 }));
    assert!(matches!(Command::TestChapter { chapter: 2 }, Command::TestChapter { chapter: 2 }));
}
