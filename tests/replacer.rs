use replacer::{replace, ImmRule, ReplacerError, Rule};

fn rule(pattern: &str, replacement: &str) -> Rule {
    Rule { pattern: pattern.to_string(), replacement: replacement.to_string() }
}

fn rule_from_json(record: &serde_json::Value) -> Rule {
    rule(
        record["pattern"].as_str().unwrap(),
        record["replacement"].as_str().unwrap(),
    )
}

#[test]
fn sara_am() {
    let record = r###"{"pattern": "ํา", "replacement": "ำ"}"###;
    let record: serde_json::Value = serde_json::from_str(record).unwrap();
    let imm_rules = ImmRule::from_rules(&vec![rule_from_json(&record)]).unwrap();
    let mod_text = replace(&imm_rules, "สําหรับข้อเสนอ");
    assert_eq!(mod_text, "สำหรับข้อเสนอ");
}

#[test]
fn one_record_loads_one_rule() {
    let resource = r###"[{"pattern": "ํา", "replacement": "ำ"}]"###;
    let records: serde_json::Value = serde_json::from_str(resource).unwrap();
    let rules: Vec<Rule> = records.as_array().unwrap().iter().map(rule_from_json).collect();
    let imm_rules = ImmRule::from_rules(&rules).unwrap();
    assert_eq!(imm_rules.len(), 1);
}

#[test]
fn empty_rule_set_is_identity() {
    let imm_rules: Vec<ImmRule> = Vec::new();
    assert_eq!(replace(&imm_rules, "any text at all"), "any text at all");
    assert_eq!(replace(&imm_rules, ""), "");
    assert_eq!(replace(&[], "สําหรับ"), "สําหรับ");
}

#[test]
fn order_of_rules_matters() {
    let r1_r2 = ImmRule::from_rules(&[rule("a", "b"), rule("b", "c")]).unwrap();
    let r2_r1 = ImmRule::from_rules(&[rule("b", "c"), rule("a", "b")]).unwrap();
    assert_eq!(replace(&r1_r2, "a"), "c");
    assert_eq!(replace(&r2_r1, "a"), "b");
}

#[test]
fn later_rules_see_earlier_output() {
    let imm_rules = ImmRule::from_rules(&[rule("foo", "bar"), rule("bar", "baz")]).unwrap();
    assert_eq!(replace(&imm_rules, "foo foo"), "baz baz");
}

#[test]
fn every_match_is_replaced() {
    let imm_rules = ImmRule::from_rules(&[rule("o", "0")]).unwrap();
    assert_eq!(replace(&imm_rules, "foo boo"), "f00 b00");
}

#[test]
fn no_match_leaves_text_unchanged() {
    let imm_rules = ImmRule::from_rules(&[rule("xyz", "!")]).unwrap();
    assert_eq!(replace(&imm_rules, "hello"), "hello");
}

#[test]
fn normalization_is_idempotent() {
    let imm_rules = ImmRule::from_rules(&[rule("ํา", "ำ")]).unwrap();
    let once = replace(&imm_rules, "สําหรับข้อเสนอ สํา");
    let twice = replace(&imm_rules, &once);
    assert_eq!(once, "สำหรับข้อเสนอ สำ");
    assert_eq!(twice, once);
}

#[test]
fn empty_text_stays_empty() {
    let imm_rules = ImmRule::from_rules(&[rule("a", "b"), rule("", "x")]).unwrap();
    assert_eq!(replace(&imm_rules, ""), "");
}

#[test]
fn empty_pattern_matches_between_characters() {
    let imm_rules = ImmRule::from_rules(&[rule("", "-")]).unwrap();
    assert_eq!(replace(&imm_rules, "ab"), "-a-b-");
}

#[test]
fn capture_groups_are_expanded() {
    let imm_rules = ImmRule::from_rules(&[rule(r"(\w+)@(\w+)", "$2 at ${1}")]).unwrap();
    assert_eq!(replace(&imm_rules, "me@home"), "home at me");
}

#[test]
fn missing_capture_group_expands_to_nothing() {
    let imm_rules = ImmRule::from_rules(&[rule("a", "[${1}]")]).unwrap();
    assert_eq!(replace(&imm_rules, "cat"), "c[]t");
}

#[test]
fn from_rule_keeps_pattern_and_replacement() {
    let imm = ImmRule::from_rule(&rule(r"\d+", "#")).unwrap();
    assert_eq!(imm.pattern.as_str(), r"\d+");
    assert_eq!(imm.replacement, "#");
    assert_eq!(replace(&[imm], "a1b22"), "a#b#");
}

#[test]
fn invalid_pattern_is_refused() {
    match ImmRule::from_rule(&rule("foo(bar", "x")) {
        Err(ReplacerError::CannotCreateImmRule(pattern, message)) => {
            assert_eq!(pattern, "foo(bar");
            assert!(!message.is_empty());
        }
        other => panic!("unexpected result: {:?}", other),
    }
}

#[test]
fn batch_fails_fast_on_second_rule() {
    let rules = vec![rule("a", "b"), rule("(", "c"), rule("[", "d")];
    match ImmRule::from_rules(&rules) {
        Err(ReplacerError::CannotCreateImmRule(pattern, _)) => assert_eq!(pattern, "("),
        other => panic!("unexpected result: {:?}", other),
    }
}

#[test]
fn batch_keeps_rule_order() {
    let imm_rules = ImmRule::from_rules(&[rule("x", "1"), rule("y", "2"), rule("z", "3")]).unwrap();
    let patterns: Vec<&str> = imm_rules.iter().map(|r| r.pattern.as_str()).collect();
    let replacements: Vec<&str> = imm_rules.iter().map(|r| r.replacement.as_str()).collect();
    assert_eq!(patterns, vec!["x", "y", "z"]);
    assert_eq!(replacements, vec!["1", "2", "3"]);
}

#[test]
fn empty_batch_compiles_to_empty_rule_set() {
    let imm_rules = ImmRule::from_rules(&[]).unwrap();
    assert!(imm_rules.is_empty());
}
