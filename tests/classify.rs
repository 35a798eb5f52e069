use dmesg_analyzer::bucket::bucket;
use dmesg_analyzer::formatter::{format_line, shade_of, Shade};
use dmesg_analyzer::parser::{matches_rule, parse_log};
use dmesg_analyzer::rules::{LogCategory, Rule, RuleSet};
use dmesg_analyzer::text::{contains_text, same_text};

fn rule(keywords: &[&str], color: &str, icon: &str) -> Rule {
    Rule {
        keywords: keywords.iter().map(|k| k.to_string()).collect(),
        color: color.to_string(),
        icon: icon.to_string(),
    }
}

fn sample_rules() -> RuleSet {
    RuleSet {
        critical: rule(&["oops"], "bold red", "C"),
        error: rule(&["failed"], "red", "E"),
        warning: rule(&["warn"], "yellow", "W"),
        info: rule(&[], "blue", "I"),
    }
}

fn lines(v: &[&str]) -> Vec<String> {
    v.iter().map(|s| s.to_string()).collect()
}

#[test]
fn end_to_end_buckets() {
    let input = lines(&[
        "kernel: Oops: divide error",
        "eth0: link down (warn)",
        "systemd: Failed to start unit",
        "usb 1-1: new device",
    ]);
    let b = bucket(&input, &sample_rules());
    assert_eq!(b.critical.len(), 1);
    assert!(b.critical[0].starts_with("C "));
    assert!(b.critical[0].contains("kernel: Oops: divide error"));
    assert_eq!(b.error.len(), 1);
    assert!(b.error[0].starts_with("E "));
    assert!(b.error[0].contains("systemd: Failed to start unit"));
    assert_eq!(b.warning.len(), 1);
    assert!(b.warning[0].starts_with("W "));
    assert!(b.warning[0].contains("eth0: link down (warn)"));
    assert_eq!(b.info, vec!["usb 1-1: new device".to_string()]);
}

#[test]
fn keyword_match_ignores_case() {
    let rules = RuleSet {
        critical: rule(&["panic"], "nosuchcolor", "!"),
        error: rule(&[], "red", "E"),
        warning: rule(&[], "red", "W"),
        info: rule(&[], "red", "I"),
    };
    let r = parse_log("KERNEL PANIC", &rules);
    assert_eq!(r, Some(("! KERNEL PANIC".to_string(), LogCategory::Critical)));
    let upper_keyword = rule(&["PANIC"], "red", "!");
    assert!(matches_rule("kernel panic - not syncing", &upper_keyword));
}

#[test]
fn empty_rule_matches_nothing() {
    let empty = rule(&[], "red", "x");
    assert!(!matches_rule("", &empty));
    assert!(!matches_rule("kernel panic oops error", &empty));
    assert!(!matches_rule("ünïcödé ✓", &empty));
}

#[test]
fn empty_keyword_matches_every_line() {
    let any = rule(&[""], "red", "x");
    assert!(matches_rule("", &any));
    assert!(matches_rule("anything", &any));
}

#[test]
fn most_severe_rule_wins() {
    let rules = RuleSet {
        critical: rule(&["oops"], "zz", "C"),
        error: rule(&["error"], "zz", "E"),
        warning: rule(&["error"], "zz", "W"),
        info: rule(&["error"], "zz", "I"),
    };
    let r = parse_log("Oops: divide error", &rules);
    assert_eq!(r, Some(("C Oops: divide error".to_string(), LogCategory::Critical)));
    let r = parse_log("disk error", &rules);
    assert_eq!(r, Some(("E disk error".to_string(), LogCategory::Error)));
    let r = parse_log("all is well", &rules);
    assert_eq!(r, None);
}

#[test]
fn info_rule_decorates() {
    let rules = RuleSet {
        critical: rule(&["oops"], "zz", "C"),
        error: rule(&[], "zz", "E"),
        warning: rule(&[], "zz", "W"),
        info: rule(&["usb"], "zz", "I"),
    };
    let r = parse_log("usb 1-1: new device", &rules);
    assert_eq!(r, Some(("I usb 1-1: new device".to_string(), LogCategory::Info)));
}

#[test]
fn buckets_keep_input_order() {
    let input = lines(&["warn a", "oops b", "warn c", "plain d", "failed e", "warn f", "plain g"]);
    let mut rules = sample_rules();
    rules.critical.color = "none".to_string();
    rules.error.color = "none".to_string();
    rules.warning.color = "none".to_string();
    let b = bucket(&input, &rules);
    assert_eq!(b.warning, vec!["W warn a".to_string(), "W warn c".to_string(), "W warn f".to_string()]);
    assert_eq!(b.critical, vec!["C oops b".to_string()]);
    assert_eq!(b.error, vec!["E failed e".to_string()]);
    assert_eq!(b.info, vec!["plain d".to_string(), "plain g".to_string()]);
}

#[test]
fn bucket_of_nothing_is_empty() {
    let b = bucket(&Vec::new(), &sample_rules());
    assert!(b.critical.is_empty() && b.error.is_empty() && b.warning.is_empty() && b.info.is_empty());
}

#[test]
fn unknown_color_leaves_line_unstyled() {
    assert_eq!(format_line("ünïcödé ✓ line", "mauve", "🔥"), "🔥 ünïcödé ✓ line");
    assert_eq!(format_line("", "", ""), " ");
    assert_eq!(format_line("x", "bold  red", "i"), "i x");
}

#[test]
fn known_color_paints_line() {
    colored::control::set_override(true);
    assert_eq!(format_line("x", "RED", "!"), "! \u{1b}[31mx\u{1b}[0m");
    assert_eq!(format_line("x", "Bold Red", "!"), "! \u{1b}[1;31mx\u{1b}[0m");
    let s = format_line("disk", "green", "✓");
    assert!(s.starts_with("✓ ") && s.contains("disk") && s.ends_with("\u{1b}[0m"));
}

#[test]
fn color_names() {
    assert_eq!(shade_of("red"), Some(Shade::Red));
    assert_eq!(shade_of("bold red"), Some(Shade::BoldRed));
    assert_eq!(shade_of("bold-red"), Some(Shade::BoldRed));
    assert_eq!(shade_of("green"), Some(Shade::Green));
    assert_eq!(shade_of("yellow"), Some(Shade::Yellow));
    assert_eq!(shade_of("blue"), Some(Shade::Blue));
    assert_eq!(shade_of("magenta"), Some(Shade::Magenta));
    assert_eq!(shade_of("cyan"), Some(Shade::Cyan));
    assert_eq!(shade_of("white"), Some(Shade::White));
    assert_eq!(shade_of("black"), Some(Shade::Black));
    assert_eq!(shade_of("Red"), None);
    assert_eq!(shade_of("purple"), None);
    assert_eq!(shade_of(""), None);
}

#[test]
fn text_search() {
    assert!(contains_text("kernel panic", "panic"));
    assert!(contains_text("kernel panic", ""));
    assert!(!contains_text("kernel panic", "Panic"));
    assert!(!contains_text("pan", "panic"));
    assert!(contains_text("✓✓ ü", "✓ ü"));
    assert!(same_text("abc", "abc"));
    assert!(!same_text("abc", "abd"));
    assert!(!same_text("abc", "ab"));
}
