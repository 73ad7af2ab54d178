use vstd::prelude::*;

verus! {

/// A configuration number. The signature decoder only ever consumes
/// non-negative integers; the other arms record that a number of another
/// shape stood in the configuration, so that a mismatch can be reported.
#[derive(Debug, Clone, Copy, PartialEq, Eq, Structural)]
pub enum NumberValue {
    /// A non-negative integer.
    Unsigned(u64),
    /// A negative integer.
    Signed(i64),
    /// A number that is not an integer.
    Inexact,
}

/// A structured value taken from a rule's configuration: the generic model
/// behind remote-call arguments (null, boolean, number, string, sequence,
/// mapping).
#[derive(Debug)]
pub enum ConfigValue {
    Null,
    Bool(bool),
    Number(NumberValue),
    Str(String),
    Sequence(Vec<ConfigValue>),
    Mapping(Vec<(ConfigValue, ConfigValue)>),
}

/// The kind of a structured value, as reported in type-mismatch errors.
#[derive(Debug, Clone, Copy, PartialEq, Eq, Structural)]
pub enum ValueKind {
    Null,
    Bool,
    Number,
    Str,
    Sequence,
    Mapping,
}

/// The kind of a structured value.
pub open spec fn kind_of(v: ConfigValue) -> ValueKind {
    match v {
        ConfigValue::Null => ValueKind::Null,
        ConfigValue::Bool(_) => ValueKind::Bool,
        ConfigValue::Number(_) => ValueKind::Number,
        ConfigValue::Str(_) => ValueKind::Str,
        ConfigValue::Sequence(_) => ValueKind::Sequence,
        ConfigValue::Mapping(_) => ValueKind::Mapping,
    }
}

impl ConfigValue {
    /// Reports which kind of value this is.
    pub fn kind(&self) -> (k: ValueKind)
        ensures
            k == kind_of(*self),
    {
        match self {
            ConfigValue::Null => ValueKind::Null,
            ConfigValue::Bool(_) => ValueKind::Bool,
            ConfigValue::Number(_) => ValueKind::Number,
            ConfigValue::Str(_) => ValueKind::Str,
            ConfigValue::Sequence(_) => ValueKind::Sequence,
            ConfigValue::Mapping(_) => ValueKind::Mapping,
        }
    }
}

} // verus!
