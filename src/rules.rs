//! Rules as supplied by a rule source, and their compiled form.
use crate::matcher::{compile, compiles, regex_source};
use regex::Regex;
use vstd::prelude::*;

verus! {

/// Why a set of rules could not be made ready for use.
#[derive(Debug, Clone)]
pub enum ReplacerError {
    /// A rule's pattern was refused by the regex engine: the pattern, and the
    /// engine's message.
    CannotCreateImmRule(String, String),
    /// The rule resource could not be read.
    CannotLoadRules(String),
    /// The rule resource was read but does not hold a list of rules.
    CannotDeserializeRules(String),
}

/// A raw rule: a regular-expression pattern and the replacement template for
/// its matches (which may refer to capture groups as `$1` or `${name}`).
#[derive(Debug, Clone)]
pub struct Rule {
    pub pattern: String,
    pub replacement: String,
}

/// A rule whose pattern has been compiled, ready to be applied.
#[derive(Debug)]
pub struct ImmRule {
    pub pattern: Regex,
    pub replacement: String,
}

impl ImmRule {
    /// The pattern the compiled regex stands for.
    pub open spec fn source(&self) -> Seq<char> {
        regex_source(self.pattern)
    }

    /// This compiled rule came from `rule`.
    pub open spec fn compiled_from(&self, rule: Rule) -> bool {
        &&& self.source() == rule.pattern@
        &&& self.replacement@ == rule.replacement@
    }

    /// Compiles one rule; fails exactly when its pattern is refused.
    pub fn from_rule(rule: &Rule) -> (r: Result<ImmRule, ReplacerError>)
        ensures
            r is Ok <==> compiles(rule.pattern@),
            r matches Ok(imm) ==> imm.compiled_from(*rule),
            r matches Err(e) ==> e matches ReplacerError::CannotCreateImmRule(p, _) && p@
                == rule.pattern@,
    {
        match compile(rule.pattern.as_str()) {
            Ok(pattern) => Ok(ImmRule { pattern, replacement: rule.replacement.clone() }),
            Err(msg) => Err(ReplacerError::CannotCreateImmRule(rule.pattern.clone(), msg)),
        }
    }

    /// Compiles a batch of rules in order. The first rule whose pattern is
    /// refused aborts the batch: no compiled rule is handed out then.
    pub fn from_rules(rules: &[Rule]) -> (r: Result<Vec<ImmRule>, ReplacerError>)
        ensures
            r is Ok <==> all_compile(rules@),
            r matches Ok(imms) ==> compiled_in_order(imms@, rules@),
            r matches Err(e) ==> exists|i: int|
                first_refused(rules@, i) && (e matches ReplacerError::CannotCreateImmRule(p, _)
                    && p@ == rules@[i].pattern@),
    {
        let mut imm_rules: Vec<ImmRule> = Vec::new();
        let mut i: usize = 0;
        while i < rules.len()
            invariant
                i <= rules@.len(),
                all_compile(rules@.take(i as int)),
                compiled_in_order(imm_rules@, rules@.take(i as int)),
            decreases rules@.len() - i,
        {
            match Self::from_rule(&rules[i]) {
                Ok(imm_rule) => {
                    imm_rules.push(imm_rule);
                    i = i + 1;
                    assert(rules@.take(i as int) =~= rules@.take(i - 1).push(rules@[i - 1]));
                },
                Err(e) => {
                    assert(first_refused(rules@, i as int));
                    return Err(e);
                },
            }
        }
        assert(rules@.take(i as int) =~= rules@);
        Ok(imm_rules)
    }
}

/// Every rule's pattern compiles.
pub open spec fn all_compile(rules: Seq<Rule>) -> bool {
    forall|i: int| 0 <= i < rules.len() ==> compiles(#[trigger] rules[i].pattern@)
}

/// Rule `i` is the first whose pattern does not compile.
pub open spec fn first_refused(rules: Seq<Rule>, i: int) -> bool {
    &&& 0 <= i < rules.len()
    &&& !compiles(rules[i].pattern@)
    &&& all_compile(rules.take(i))
}

/// `imms` holds, one for one and in the same order, the compiled `rules`.
pub open spec fn compiled_in_order(imms: Seq<ImmRule>, rules: Seq<Rule>) -> bool {
    &&& imms.len() == rules.len()
    &&& forall|i: int| 0 <= i < rules.len() ==> (#[trigger] imms[i]).compiled_from(rules[i])
}

/// A batch of three rules whose second pattern does not compile is refused,
/// at its second rule, even though its first rule compiles: `from_rules`
/// hands out no compiled rule for it.
pub proof fn lemma_fail_fast_second_of_three(rules: Seq<Rule>)
    requires
        rules.len() == 3,
        compiles(rules[0].pattern@),
        !compiles(rules[1].pattern@),
    ensures
        !all_compile(rules),
        first_refused(rules, 1),
{
    assert(rules.take(1)[0] == rules[0]);
}

} // verus!
