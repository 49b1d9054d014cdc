//! Applying an ordered set of compiled rules to a text.
use crate::matcher::{has_match, is_match, replace_all, replaced_all};
use crate::rules::ImmRule;
use vstd::prelude::*;

verus! {

/// One rule applied to the working text: every non-overlapping match of its
/// pattern replaced by its expanded template; where there is no match the
/// text stays as it is.
pub open spec fn rule_step(rule: ImmRule, text: Seq<char>) -> Seq<char> {
    if has_match(rule.pattern, text) {
        replaced_all(rule.pattern, text, rule.replacement@)
    } else {
        text
    }
}

/// The rules applied one after another, in their order, each to what the
/// rules before it left.
pub open spec fn apply_in_order(rules: Seq<ImmRule>, text: Seq<char>) -> Seq<char>
    decreases rules.len(),
{
    if rules.len() == 0 {
        text
    } else {
        rule_step(rules.last(), apply_in_order(rules.drop_last(), text))
    }
}

/// What `replace` gives: an empty text stays empty, any other text goes
/// through the rules in order.
pub open spec fn replaced(rules: Seq<ImmRule>, text: Seq<char>) -> Seq<char> {
    if text.len() == 0 {
        text
    } else {
        apply_in_order(rules, text)
    }
}

/// Applies `rules` to `text` in their order, each rule to the output of the
/// one before it. With no rules, or on an empty text, the text comes back as
/// it is.
pub fn replace(rules: &[ImmRule], text: &str) -> (r: String)
    ensures
        r@ == replaced(rules@, text@),
        rules@.len() == 0 ==> r@ == text@,
        text@.len() == 0 ==> r@ == text@,
{
    if rules.len() == 0 || text.is_empty() {
        return text.to_owned();
    }
    let mut mod_text: String = text.to_owned();
    let mut i: usize = 0;
    while i < rules.len()
        invariant
            i <= rules@.len(),
            mod_text@ == apply_in_order(rules@.take(i as int), text@),
        decreases rules@.len() - i,
    {
        let rule = &rules[i];
        if is_match(&rule.pattern, mod_text.as_str()) {
            mod_text = replace_all(&rule.pattern, mod_text.as_str(), rule.replacement.as_str());
        }
        i = i + 1;
        assert(rules@.take(i as int).drop_last() =~= rules@.take(i - 1));
    }
    assert(rules@.take(i as int) =~= rules@);
    mod_text
}

/// Applying two lists of rules one after the other is applying their
/// concatenation.
pub proof fn lemma_apply_in_order_concat(first: Seq<ImmRule>, second: Seq<ImmRule>, text: Seq<char>)
    ensures
        apply_in_order(first + second, text) == apply_in_order(second, apply_in_order(first, text)),
    decreases second.len(),
{
    if second.len() == 0 {
        assert(first + second =~= first);
    } else {
        assert((first + second).drop_last() =~= first + second.drop_last());
        lemma_apply_in_order_concat(first, second.drop_last(), text);
    }
}

/// Rules compose in sequence: the rules of `second` see the text that the
/// rules of `first` produced, not the original one (as long as neither that
/// text nor the original is empty, where the text is returned as it is).
pub proof fn lemma_sequential_composition(first: Seq<ImmRule>, second: Seq<ImmRule>, text: Seq<char>)
    requires
        text.len() > 0,
        replaced(first, text).len() > 0,
    ensures
        replaced(first + second, text) == replaced(second, replaced(first, text)),
{
    lemma_apply_in_order_concat(first, second, text);
}

/// With no rules every text is returned unchanged.
pub proof fn lemma_empty_rules_identity(text: Seq<char>)
    ensures
        replaced(Seq::<ImmRule>::empty(), text) == text,
{
}

/// A single rule is idempotent on texts where one pass leaves no match of its
/// pattern: a second pass changes nothing.
pub proof fn lemma_single_rule_idempotent(rule: ImmRule, text: Seq<char>)
    requires
        !has_match(rule.pattern, replaced(seq![rule], text)),
    ensures
        replaced(seq![rule], replaced(seq![rule], text)) == replaced(seq![rule], text),
{
    let rules = seq![rule];
    let once = replaced(rules, text);
    assert(rules.drop_last() =~= Seq::<ImmRule>::empty());
    assert(rules.last() == rule);
    assert(apply_in_order(rules.drop_last(), once) == once);
    assert(apply_in_order(rules, once) == rule_step(rule, once));
}

} // verus!
