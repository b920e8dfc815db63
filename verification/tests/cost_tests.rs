use mini_claude_code::cost::{model_pricing, CostFigures, CostTracker, Usage};

fn usage(input: u64, output: u64, cache_read: u64, cache_creation: u64) -> Usage {
    Usage {
        input_tokens: input,
        output_tokens: output,
        cache_read_input_tokens: cache_read,
        cache_creation_input_tokens: cache_creation,
    }
}

#[test]
fn test_cost_haiku_exact() {
    let mut meter = CostTracker::new("haiku-4-5-20251001");
    meter.add_usage(&usage(1_000_000, 1_000_000, 0, 0));
    // Haiku: $0.80/M input + $4.0/M output = $4.80
    let cost = meter.estimated_cost_units() as f64 / 100_000_000.0;
    assert!((cost - 4.80).abs() < 0.001, "Expected $4.80, got ${}", cost);
}

#[test]
fn test_cost_with_cache() {
    let mut meter = CostTracker::new("sonnet-4-20250514");
    meter.add_usage(&usage(0, 0, 1_000_000, 1_000_000));
    // Sonnet: cache_read $0.30/M + cache_write $3.75/M = $4.05
    let cost = meter.estimated_cost_units() as f64 / 100_000_000.0;
    assert!((cost - 4.05).abs() < 0.001, "Expected $4.05, got ${}", cost);
}

#[test]
fn test_total_tokens_includes_cache() {
    let mut meter = CostTracker::new("haiku-4-5-20251001");
    meter.add_usage(&usage(100, 50, 200, 30));
    assert_eq!(meter.total_tokens(), 380);
}

#[test]
fn test_summary_singular_turn() {
    let mut meter = CostTracker::new("haiku-4-5-20251001");
    meter.add_turn();
    let summary = meter.summary("0", "0.0000");
    assert!(summary.contains("1 turn "));
}

#[test]
fn test_summary_plural_turns() {
    let mut meter = CostTracker::new("haiku-4-5-20251001");
    meter.add_turn();
    meter.add_turn();
    let summary = meter.summary("0", "0.0000");
    assert!(summary.contains("2 turns"));
}

#[test]
fn pricing_follows_model_family() {
    let opus = model_pricing("opus-4");
    assert_eq!((opus.input, opus.output, opus.cache_read, opus.cache_write), (1500, 7500, 150, 1875));
    let haiku = model_pricing("haiku-4-5");
    assert_eq!((haiku.input, haiku.output, haiku.cache_read, haiku.cache_write), (80, 400, 8, 100));
    let sonnet = model_pricing("sonnet-4");
    assert_eq!((sonnet.input, sonnet.output), (300, 1500));
    let other = model_pricing("some-other-model");
    assert_eq!((other.input, other.output, other.cache_read, other.cache_write), (300, 1500, 30, 375));
}

#[test]
fn summary_exact_text() {
    let mut meter = CostTracker::new("haiku-4-5-20251001");
    meter.add_usage(&usage(1_000_000, 1_000_000, 0, 0));
    meter.add_turn();
    assert_eq!(meter.summary("2.0M", "4.8000"), "1 turn \u{b7} 2.0M tokens \u{b7} $4.8000");
    assert_eq!(meter.estimated_cost_units(), 480_000_000);
    assert_eq!(meter.total_tokens(), 2_000_000);
}

#[test]
fn usage_order_does_not_matter() {
    let start = usage(10, 0, 5, 7);
    let end = usage(0, 42, 0, 0);
    let mut a = CostTracker::new("haiku");
    a.add_usage(&start);
    a.add_usage(&end);
    let mut b = CostTracker::new("haiku");
    b.add_usage(&end);
    b.add_usage(&start);
    assert_eq!(a.total_input_tokens, b.total_input_tokens);
    assert_eq!(a.total_output_tokens, b.total_output_tokens);
    assert_eq!(a.total_cache_read_tokens, b.total_cache_read_tokens);
    assert_eq!(a.total_cache_creation_tokens, b.total_cache_creation_tokens);
    assert_eq!(a.total_tokens(), 64);
}

#[test]
fn detail_lists_cache_lines_only_when_used() {
    let mut meter = CostTracker::new("sonnet-4");
    meter.add_usage(&usage(1500, 20, 0, 0));
    meter.add_turn();
    let plain = meter.detail(&figures("1.5K", "20", "0", "0", "1.5K", "0.0048"));
    assert!(!plain.contains("Cache read"));
    assert!(!plain.contains("Cache created"));
    assert!(plain.contains("  Input tokens:        1.5K"));
    assert!(plain.contains("  Output tokens:         20"));
    assert!(plain.contains("  Turns:                  1"));
    assert!(plain.ends_with("  Model:           sonnet-4"));
    meter.add_usage(&usage(0, 0, 3, 0));
    let with_cache = meter.detail(&figures("1.5K", "20", "3", "0", "1.5K", "0.0048"));
    assert!(with_cache.contains("  Cache read:             3"));
    assert!(!with_cache.contains("Cache created"));
    let expected = "  \x1b[1mSession Cost\x1b[0m\n\n  Input tokens:        1.5K\n  Output tokens:         20\n  Cache read:             3\n  \x1b[2m\u{2500}\u{2500}\u{2500}\u{2500}\u{2500}\u{2500}\u{2500}\u{2500}\u{2500}\u{2500}\u{2500}\u{2500}\u{2500}\u{2500}\u{2500}\u{2500}\u{2500}\u{2500}\u{2500}\u{2500}\u{2500}\x1b[0m\n  Total:               1.5K\n  Turns:                  1\n  Est. cost:       \x1b[1m$0.0048\x1b[0m\n  Model:           sonnet-4";
    assert_eq!(with_cache, expected);
}

fn figures(input: &str, output: &str, read: &str, created: &str, total: &str, cost: &str) -> CostFigures {
    CostFigures {
        input: input.to_string(),
        output: output.to_string(),
        cache_read: read.to_string(),
        cache_created: created.to_string(),
        total: total.to_string(),
        cost: cost.to_string(),
    }
}

#[test]
fn detail_shows_the_figures_it_is_given() {
    let mut meter = CostTracker::new("opus-4");
    meter.add_usage(&usage(1150, 0, 0, 9));
    let text = meter.detail(&figures("1.1K", "0", "0", "9", "1.2K", "0.0174"));
    assert!(text.contains("  Input tokens:        1.1K"));
    assert!(text.contains("  Cache created:          9"));
    assert!(text.contains("  Total:               1.2K"));
    assert!(text.contains("\x1b[1m$0.0174\x1b[0m"));
    assert!(!text.contains("Cache read"));
    assert_eq!(meter.estimated_cost_units(), 1150 * 1500 + 9 * 1875);
}
