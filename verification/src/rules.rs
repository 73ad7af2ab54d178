use vstd::prelude::*;

use crate::value::ConfigValue;

verus! {

/// The remote-call payload of a rule: where to send the call, and the
/// signature-typed arguments to send with it.
#[derive(Debug)]
pub struct RemoteCall {
    pub destination: String,
    pub path: String,
    pub interface: String,
    pub method: String,
    /// The wire type signature the arguments are decoded against.
    pub signature: String,
    pub args: Vec<ConfigValue>,
}

/// One routing directive: a pattern, and the action taken when the pattern
/// is the first to match an input. A rule carries at most one action; a
/// rule with neither is only found out when it is chosen (dispatch reports
/// it), and when both are present the `exec` action wins.
#[derive(Debug)]
pub struct Rule {
    /// A regular expression, in string form.
    pub pattern: String,
    /// Template strings: the program name first, argument templates after
    /// it. Capture references in the argument templates are expanded from
    /// the input the pattern matched.
    pub exec_templates: Option<Vec<String>>,
    /// A typed call to carry over the message bus, used as written — its
    /// arguments are not capture-expanded.
    pub remote_call: Option<RemoteCall>,
}

} // verus!
