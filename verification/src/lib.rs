//! Routes a URL string to an external action — a program invocation or a
//! typed remote call over a message bus — chosen by the first matching rule
//! of an ordered rule set.
//!
//! The library covers the decision logic: compiling rule patterns into a
//! matcher, resolving first-match-wins against an input, expanding captures
//! into command-line arguments, and decoding signature-typed remote-call
//! arguments. Running the chosen action (spawning the process, carrying the
//! call over the bus) is left to the caller.

pub mod codec;
pub mod dispatch;
pub mod matcher;
pub mod rules;
pub mod rx;
pub mod value;

pub use codec::decode;
pub use codec::DecodeError;
pub use codec::WireValue;
pub use dispatch::Action;
pub use dispatch::DispatchError;
pub use matcher::CompiledRuleSet;
pub use matcher::PatternError;
pub use rules::RemoteCall;
pub use rules::Rule;
pub use value::ConfigValue;
pub use value::NumberValue;
pub use value::ValueKind;
