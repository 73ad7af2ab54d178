use vstd::prelude::*;

use crate::codec::{decode, decode_spec, DecodeError, WireVal, WireValue};
use crate::rules::Rule;
use crate::rx::{regex_pattern, replace_template, replaced_first};
use regex::Regex;

verus! {

/// A fully expanded action, ready for the invocation boundary: either an
/// argv vector to run, or a typed payload to carry over the message bus.
#[derive(Debug)]
pub enum Action {
    /// Run a program: the argv vector, program name first.
    Run { argv: Vec<String> },
    /// Invoke a method over the session bus with typed arguments.
    Call {
        destination: String,
        path: String,
        interface: String,
        method: String,
        args: Vec<WireValue>,
    },
}

/// Why a matched rule could not be turned into an action.
#[derive(Debug)]
pub enum DispatchError {
    /// The matched rule carries neither an `exec` nor a `remote_call`
    /// action; the offending rule is named by its pattern.
    NoActionConfigured { pattern: String },
    /// The matched rule's `exec` list is empty: there is no program name.
    EmptyExec,
    /// The matched rule's remote-call arguments do not fit its signature.
    BadArguments { error: DecodeError },
}

/// The character sequences of a sequence of strings.
pub open spec fn argv_views(argv: Seq<String>) -> Seq<Seq<char>> {
    argv.map_values(|s: String| s@)
}

/// The argv an `exec` rule expands to: the program name stands unchanged,
/// and every following template has its capture references replaced from
/// the first match of the pattern in the input, each template on its own.
pub open spec fn expanded_argv(
    pattern: Seq<char>,
    input: Seq<char>,
    templates: Seq<Seq<char>>,
) -> Seq<Seq<char>>
    recommends
        templates.len() >= 1,
{
    seq![templates[0]] + templates.drop_first().map_values(
        |t: Seq<char>| replaced_first(pattern, input, t),
    )
}

/// What dispatching a rule against an input must yield: an `exec` rule with
/// a program name expands to its argv; an empty `exec` list is refused; a
/// remote-call rule decodes its arguments against its signature, passing
/// decoding failures through; a rule with no action at all is refused with
/// its pattern named. When both actions are present, `exec` wins.
pub open spec fn dispatch_outcome(
    rule: Rule,
    input: Seq<char>,
    r: Result<Action, DispatchError>,
) -> bool {
    match r {
        Ok(a) => match a {
            Action::Run { argv } => {
                &&& rule.exec_templates matches Some(ex) && ex@.len() >= 1 && argv_views(argv@)
                    == expanded_argv(rule.pattern@, input, argv_views(ex@))
            },
            Action::Call { destination, path, interface, method, args } => {
                &&& rule.exec_templates is None
                &&& rule.remote_call matches Some(rc) && destination@ == rc.destination@ && path@
                    == rc.path@ && interface@ == rc.interface@ && method@ == rc.method@
                    && decode_spec(rc.signature@, rc.args@) == Ok::<Seq<WireVal>, DecodeError>(
                    args@.map_values(|w: WireValue| w@),
                )
            },
        },
        Err(e) => match e {
            DispatchError::EmptyExec => rule.exec_templates matches Some(ex) && ex@.len() == 0,
            DispatchError::NoActionConfigured { pattern } => {
                &&& rule.exec_templates is None
                &&& rule.remote_call is None
                &&& pattern@ == rule.pattern@
            },
            DispatchError::BadArguments { error } => {
                &&& rule.exec_templates is None
                &&& rule.remote_call matches Some(rc) && decode_spec(rc.signature@, rc.args@)
                    == Err::<Seq<WireVal>, DecodeError>(error)
            },
        },
    }
}

/// Turns a matched rule and the input it matched into a fully expanded
/// action. Pure: deciding what to run is kept apart from running it.
pub fn dispatch_rule(rule: &Rule, re: &Regex, input: &str) -> (r: Result<Action, DispatchError>)
    requires
        regex_pattern(*re) == rule.pattern@,
    ensures
        dispatch_outcome(*rule, input@, r),
{
    if let Some(ex) = &rule.exec_templates {
        if ex.len() == 0 {
            return Err(DispatchError::EmptyExec);
        }
        let mut argv: Vec<String> = Vec::new();
        argv.push(ex[0].clone());
        let mut j: usize = 1;
        while j < ex.len()
            invariant
                1 <= j <= ex@.len(),
                argv@.len() == j,
                regex_pattern(*re) == rule.pattern@,
                argv@[0]@ == ex@[0]@,
                forall|t: int|
                    1 <= t < j ==> (#[trigger] argv@[t])@ == replaced_first(
                        rule.pattern@,
                        input@,
                        ex@[t]@,
                    ),
            decreases ex@.len() - j,
        {
            let s = replace_template(re, input, ex[j].as_str());
            argv.push(s);
            j = j + 1;
        }
        assert(argv_views(argv@) =~= expanded_argv(rule.pattern@, input@, argv_views(ex@)));
        Ok(Action::Run { argv })
    } else if let Some(rc) = &rule.remote_call {
        match decode(rc.signature.as_str(), &rc.args) {
            Ok(args) => Ok(
                Action::Call {
                    destination: rc.destination.clone(),
                    path: rc.path.clone(),
                    interface: rc.interface.clone(),
                    method: rc.method.clone(),
                    args,
                },
            ),
            Err(e) => Err(DispatchError::BadArguments { error: e }),
        }
    } else {
        Err(DispatchError::NoActionConfigured { pattern: rule.pattern.clone() })
    }
}

} // verus!
