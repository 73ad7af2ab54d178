use vstd::prelude::*;

use crate::dispatch::{argv_views, dispatch_outcome, dispatch_rule, Action, DispatchError};
use crate::rules::Rule;
use crate::rx::{
    compile_pattern, compile_set, pattern_matches, pattern_ok, regex_pattern, set_match_indices,
    set_ok, set_patterns,
};
use regex::Regex;
use regex::RegexSet;

verus! {

/// Why a rule set could not be compiled. A broken pattern set cannot be
/// trusted for priority ordering, so compilation fails as a whole.
#[derive(Debug)]
pub enum PatternError {
    /// The pattern of the rule at `index` does not compile.
    BadPattern { index: usize, pattern: String },
    /// Every pattern compiles on its own, but the combined matcher over all
    /// of them was refused.
    CombinedRefused,
}

/// A read-only view over an ordered rule set: the rules in source order —
/// that order is the priority order — each pattern compiled on its own for
/// capture expansion, and all patterns compiled into one combined matcher
/// for any-match queries. Index `i` of the combined matcher's answer
/// corresponds exactly to the rule at index `i`.
pub struct CompiledRuleSet {
    rules: Vec<Rule>,
    regexes: Vec<Regex>,
    set: RegexSet,
}

impl View for CompiledRuleSet {
    type V = Seq<Rule>;

    closed spec fn view(&self) -> Seq<Rule> {
        self.rules@
    }
}

impl CompiledRuleSet {
    /// Well-formedness: one compiled regex per rule, each built from that
    /// rule's pattern, and the combined matcher built from all the patterns
    /// in rule order.
    pub closed spec fn wf(&self) -> bool {
        &&& self.regexes@.len() == self.rules@.len()
        &&& set_patterns(self.set) == self.rules@.map_values(|r: Rule| r.pattern@)
        &&& forall|i: int|
            0 <= i < self.rules@.len() ==> regex_pattern(#[trigger] self.regexes@[i])
                == self.rules@[i].pattern@
        &&& forall|i: int|
            0 <= i < self.rules@.len() ==> pattern_ok(#[trigger] self.rules@[i].pattern@)
    }

    /// The number of rules.
    pub fn len(&self) -> (n: usize)
        ensures
            n == self@.len(),
    {
        self.rules.len()
    }

    /// The rule at `index`.
    pub fn rule_at(&self, index: usize) -> (r: &Rule)
        requires
            index < self@.len(),
        ensures
            *r == self@[index as int],
    {
        &self.rules[index]
    }

    /// Compiles an ordered rule set. Every pattern is compiled on its own
    /// and all of them into a combined matcher; the first rule whose
    /// pattern is rejected is reported with its index and pattern, and
    /// when every pattern and the combined list are accepted, compilation
    /// succeeds.
    pub fn compile(rules: Vec<Rule>) -> (r: Result<CompiledRuleSet, PatternError>)
        ensures
            (match r {
                Ok(cs) => cs.wf() && cs@ == rules@,
                Err(PatternError::BadPattern { index, pattern }) => {
                    &&& (index as int) < rules@.len()
                    &&& !pattern_ok(rules@[index as int].pattern@)
                    &&& pattern@ == rules@[index as int].pattern@
                    &&& forall|j: int|
                        0 <= j < index ==> pattern_ok(#[trigger] rules@[j].pattern@)
                },
                Err(PatternError::CombinedRefused) => {
                    &&& forall|i: int|
                        0 <= i < rules@.len() ==> pattern_ok(#[trigger] rules@[i].pattern@)
                    &&& !set_ok(rules@.map_values(|r: Rule| r.pattern@))
                },
            }),
            ((forall|i: int| 0 <= i < rules@.len() ==> pattern_ok(#[trigger] rules@[i].pattern@))
                && set_ok(rules@.map_values(|r: Rule| r.pattern@))) ==> r is Ok,
    {
        let mut regexes: Vec<Regex> = Vec::new();
        let mut pats: Vec<String> = Vec::new();
        let mut i: usize = 0;
        while i < rules.len()
            invariant
                i <= rules@.len(),
                regexes@.len() == i,
                pats@.len() == i,
                forall|j: int| 0 <= j < i ==> pattern_ok(#[trigger] rules@[j].pattern@),
                forall|j: int|
                    0 <= j < i ==> regex_pattern(#[trigger] regexes@[j]) == rules@[j].pattern@,
                forall|j: int| 0 <= j < i ==> (#[trigger] pats@[j])@ == rules@[j].pattern@,
            decreases rules@.len() - i,
        {
            match compile_pattern(&rules[i].pattern) {
                Some(re) => {
                    regexes.push(re);
                    pats.push(rules[i].pattern.clone());
                },
                None => {
                    return Err(
                        PatternError::BadPattern { index: i, pattern: rules[i].pattern.clone() },
                    );
                },
            }
            i = i + 1;
        }
        proof {
            assert(pats@.map_values(|p: String| p@) =~= rules@.map_values(|r: Rule| r.pattern@));
        }
        match compile_set(&pats) {
            Some(set) => Ok(CompiledRuleSet { rules, regexes, set }),
            None => Err(PatternError::CombinedRefused),
        }
    }

    /// Finds the first matching rule: the lowest index whose pattern
    /// matches anywhere in the input, or nothing when no pattern matches.
    /// The combined matcher answers which patterns match; the lowest index
    /// is then taken by an explicit minimum reduction, independent of the
    /// answer's own order.
    pub fn match_first(&self, input: &str) -> (r: Option<usize>)
        requires
            self.wf(),
        ensures
            (match r {
                Some(i) => {
                    &&& (i as int) < self@.len()
                    &&& pattern_matches(self@[i as int].pattern@, input@)
                    &&& forall|j: int|
                        0 <= j < i as int ==> !pattern_matches(
                            #[trigger] self@[j].pattern@,
                            input@,
                        )
                },
                None => forall|j: int|
                    0 <= j < self@.len() ==> !pattern_matches(#[trigger] self@[j].pattern@, input@),
            }),
    {
        let n = self.rules.len();
        let idxs = set_match_indices(&self.set, input);
        let m = min_index(&idxs);
        proof {
            assert(self@.len() == n as int);
            let pats = self@.map_values(|r: Rule| r.pattern@);
            assert(forall|i: int| 0 <= i < self@.len() ==> #[trigger] pats[i] == self@[i].pattern@);
            match m {
                Some(mi) => {
                    let t = choose|t: int| 0 <= t < idxs@.len() && idxs@[t] == mi;
                    assert((mi as int) < self@.len());
                    assert(idxs@.contains(mi));
                    assert(pattern_matches(self@[mi as int].pattern@, input@));
                    assert forall|j: int|
                        0 <= j < mi as int implies !pattern_matches(
                        #[trigger] self@[j].pattern@,
                        input@,
                    ) by {
                        if pattern_matches(self@[j].pattern@, input@) {
                            assert(idxs@.contains(j as usize));
                            let u = choose|u: int| 0 <= u < idxs@.len() && idxs@[u] == j as usize;
                            assert(mi <= idxs@[u]);
                        }
                    }
                },
                None => {
                    assert forall|j: int|
                        0 <= j < self@.len() implies !pattern_matches(
                        #[trigger] self@[j].pattern@,
                        input@,
                    ) by {
                        if pattern_matches(self@[j].pattern@, input@) {
                            assert(idxs@.contains(j as usize));
                        }
                    }
                },
            }
        }
        m
    }

    /// Expands the rule at `index` against the input it matched: the
    /// dispatcher proper. Pure — running the action is the caller's part.
    pub fn dispatch(&self, index: usize, input: &str) -> (r: Result<Action, DispatchError>)
        requires
            self.wf(),
            (index as int) < self@.len(),
        ensures
            dispatch_outcome(self@[index as int], input@, r),
    {
        dispatch_rule(&self.rules[index], &self.regexes[index], input)
    }

    /// Routes one input: the first matching rule is dispatched; an input no
    /// rule matches falls back to the caller-supplied default program,
    /// invoked with the raw input as its sole argument, unchanged — that
    /// path bypasses the dispatcher.
    pub fn route(&self, default_program: &str, input: &str) -> (r: Result<Action, DispatchError>)
        requires
            self.wf(),
        ensures
            (forall|j: int|
                0 <= j < self@.len() ==> !pattern_matches(
                    #[trigger] self@[j].pattern@,
                    input@,
                )) ==> (r matches Ok(a) && a matches Action::Run { argv } && argv_views(argv@)
                == seq![default_program@, input@]),
            (exists|i: int|
                0 <= i < self@.len() && pattern_matches(#[trigger] self@[i].pattern@, input@))
                ==> (exists|i: int|
                {
                    &&& 0 <= i < self@.len()
                    &&& #[trigger] pattern_matches(self@[i].pattern@, input@)
                    &&& forall|j: int|
                        0 <= j < i ==> !pattern_matches(#[trigger] self@[j].pattern@, input@)
                    &&& dispatch_outcome(self@[i], input@, r)
                }),
    {
        match self.match_first(input) {
            Some(i) => self.dispatch(i, input),
            None => {
                let mut argv: Vec<String> = Vec::new();
                argv.push(default_program.to_owned());
                argv.push(input.to_owned());
                assert(argv_views(argv@) =~= seq![default_program@, input@]);
                Ok(Action::Run { argv })
            },
        }
    }
}

/// The least entry of a vector of indices, found by an explicit minimum
/// reduction: the result does not lean on the order the entries come in.
fn min_index(idxs: &Vec<usize>) -> (r: Option<usize>)
    ensures
        (match r {
            Some(m) => idxs@.contains(m) && forall|j: int|
                0 <= j < idxs@.len() ==> m <= #[trigger] idxs@[j],
            None => idxs@.len() == 0,
        }),
{
    let mut best: Option<usize> = None;
    let mut k: usize = 0;
    while k < idxs.len()
        invariant
            k <= idxs@.len(),
            (match best {
                Some(m) => idxs@.contains(m) && forall|j: int|
                    0 <= j < k ==> m <= #[trigger] idxs@[j],
                None => k == 0,
            }),
        decreases idxs@.len() - k,
    {
        let v = idxs[k];
        match best {
            Some(m) => {
                if v < m {
                    best = Some(v);
                }
            },
            None => {
                best = Some(v);
            },
        }
        proof {
            assert(idxs@.contains(idxs@[k as int]));
        }
        k = k + 1;
    }
    best
}

} // verus!
