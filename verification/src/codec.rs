use vstd::prelude::*;

use crate::value::{kind_of, ConfigValue, NumberValue, ValueKind};

verus! {

/// A value already validated against its wire-signature tag, ready for
/// transport over the message bus.
#[derive(Debug, PartialEq, Eq)]
pub enum WireValue {
    Bool(bool),
    U32(u32),
    Str(String),
}

/// The mathematical shape of a `WireValue`: the string payload is a
/// character sequence.
pub enum WireVal {
    Bool(bool),
    U32(u32),
    Str(Seq<char>),
}

impl View for WireValue {
    type V = WireVal;

    open spec fn view(&self) -> WireVal {
        match self {
            WireValue::Bool(b) => WireVal::Bool(*b),
            WireValue::U32(n) => WireVal::U32(*n),
            WireValue::Str(s) => WireVal::Str(s@),
        }
    }
}

/// Why a (signature, arguments) pair failed to decode.
#[derive(Debug, Clone, Copy, PartialEq, Eq, Structural)]
pub enum DecodeError {
    /// The character at `position` cannot start a wire-signature tag.
    SignatureSyntax { position: usize },
    /// `tag` belongs to the wire grammar but this decoder does not carry it.
    UnsupportedTag { tag: char },
    /// The argument at `index` is not of the kind its tag demands.
    TypeMismatch { index: usize, expected_tag: char, actual_kind: ValueKind },
    /// The signature names a tag at `index` but the arguments stop short.
    MissingArgument { index: usize },
    /// More arguments were given than the signature has tags.
    ExtraArguments { expected: usize, given: usize },
}

/// The scalar tags this decoder carries: boolean, unsigned 32-bit integer,
/// UTF-8 string.
pub open spec fn is_supported_tag(t: char) -> bool {
    t == 'b' || t == 'u' || t == 's'
}

/// Every tag of the wire grammar: the supported scalars, the wider scalar
/// widths, object path, signature, file descriptor, and the openers of the
/// compound forms (array, struct, dict entry, variant).
pub open spec fn is_recognized_tag(t: char) -> bool {
    ||| is_supported_tag(t)
    ||| t == 'y' || t == 'n' || t == 'q' || t == 'i' || t == 'x' || t == 't'
    ||| t == 'd' || t == 'h' || t == 'o' || t == 'g'
    ||| t == 'a' || t == '(' || t == '{' || t == 'v'
}

/// Whether a structured value is of the kind a supported tag demands.
pub open spec fn tag_accepts(t: char, v: ConfigValue) -> bool {
    match v {
        ConfigValue::Bool(_) => t == 'b',
        ConfigValue::Number(NumberValue::Unsigned(n)) => t == 'u' && n <= u32::MAX,
        ConfigValue::Str(_) => t == 's',
        _ => false,
    }
}

/// The wire value a supported tag makes of an accepted structured value.
pub open spec fn wire_of(t: char, v: ConfigValue) -> WireVal
    recommends
        tag_accepts(t, v),
{
    match v {
        ConfigValue::Bool(b) => WireVal::Bool(b),
        ConfigValue::Number(NumberValue::Unsigned(n)) => WireVal::U32(n as u32),
        ConfigValue::Str(s) => WireVal::Str(s@),
        _ => WireVal::Bool(false),
    }
}

/// What decoding yields from position `k` on: tags and values are consumed
/// in lockstep, and the first offending position decides the error.
pub open spec fn decode_from(sig: Seq<char>, vals: Seq<ConfigValue>, k: int) -> Result<
    Seq<WireVal>,
    DecodeError,
>
    recommends
        0 <= k <= sig.len(),
    decreases sig.len() - k,
{
    if k < 0 || sig.len() <= k {
        if vals.len() <= sig.len() {
            Ok(Seq::empty())
        } else {
            Err(DecodeError::ExtraArguments { expected: sig.len() as usize, given: vals.len() as usize })
        }
    } else {
        let t = sig[k];
        if is_supported_tag(t) {
            if vals.len() <= k {
                Err(DecodeError::MissingArgument { index: k as usize })
            } else if tag_accepts(t, vals[k]) {
                match decode_from(sig, vals, k + 1) {
                    Ok(rest) => Ok(seq![wire_of(t, vals[k])] + rest),
                    Err(e) => Err(e),
                }
            } else {
                Err(DecodeError::TypeMismatch {
                    index: k as usize,
                    expected_tag: t,
                    actual_kind: kind_of(vals[k]),
                })
            }
        } else if is_recognized_tag(t) {
            Err(DecodeError::UnsupportedTag { tag: t })
        } else {
            Err(DecodeError::SignatureSyntax { position: k as usize })
        }
    }
}

/// What decoding a whole (signature, arguments) pair yields.
pub open spec fn decode_spec(sig: Seq<char>, vals: Seq<ConfigValue>) -> Result<
    Seq<WireVal>,
    DecodeError,
> {
    decode_from(sig, vals, 0)
}

/// A position the decoder walks past without failing.
pub open spec fn step_ok(sig: Seq<char>, vals: Seq<ConfigValue>, i: int) -> bool {
    &&& is_supported_tag(sig[i])
    &&& i < vals.len()
    &&& tag_accepts(sig[i], vals[i])
}

/// The wire values of the first `k` positions.
pub open spec fn wire_prefix(sig: Seq<char>, vals: Seq<ConfigValue>, k: int) -> Seq<WireVal> {
    Seq::new(k as nat, |i: int| wire_of(sig[i], vals[i]))
}

/// Decoding from the start is decoding from `k` with the wire values of the
/// first `k` positions put in front, provided the walk reaches `k`.
proof fn lemma_decode_prefix(sig: Seq<char>, vals: Seq<ConfigValue>, k: int)
    requires
        0 <= k <= sig.len(),
        forall|i: int| 0 <= i < k ==> step_ok(sig, vals, i),
    ensures
        decode_from(sig, vals, 0) == (match decode_from(sig, vals, k) {
            Ok(rest) => Ok::<Seq<WireVal>, DecodeError>(wire_prefix(sig, vals, k) + rest),
            Err(e) => Err::<Seq<WireVal>, DecodeError>(e),
        }),
    decreases k,
{
    if k == 0 {
        match decode_from(sig, vals, 0) {
            Ok(rest) => {
                assert(wire_prefix(sig, vals, 0) + rest =~= rest);
            },
            Err(_) => {},
        }
    } else {
        lemma_decode_prefix(sig, vals, k - 1);
        assert(step_ok(sig, vals, k - 1));
        match decode_from(sig, vals, k) {
            Ok(rest) => {
                assert(decode_from(sig, vals, k - 1) == Ok::<Seq<WireVal>, DecodeError>(
                    seq![wire_of(sig[k - 1], vals[k - 1])] + rest,
                ));
                assert(wire_prefix(sig, vals, k - 1) + (seq![wire_of(sig[k - 1], vals[k - 1])]
                    + rest) =~= wire_prefix(sig, vals, k) + rest);
            },
            Err(e) => {
                assert(decode_from(sig, vals, k - 1) == Err::<Seq<WireVal>, DecodeError>(e));
            },
        }
    }
}

/// A walk that succeeds from `k` on has stepped past every later position,
/// and never had arguments left over.
proof fn lemma_decode_ok_steps(sig: Seq<char>, vals: Seq<ConfigValue>, k: int)
    requires
        0 <= k <= sig.len(),
        decode_from(sig, vals, k) is Ok,
    ensures
        forall|i: int| k <= i < sig.len() ==> step_ok(sig, vals, i),
        vals.len() <= sig.len(),
    decreases sig.len() - k,
{
    if k < sig.len() {
        lemma_decode_ok_steps(sig, vals, k + 1);
    }
}

/// Tags and arguments pair off in lockstep: decoding succeeds exactly when
/// every signature position holds a supported tag that accepts the argument
/// at the same index and the counts agree — and then the result is the wire
/// value of each pair, in order.
pub proof fn lemma_decode_ok_characterization(sig: Seq<char>, vals: Seq<ConfigValue>)
    ensures
        decode_spec(sig, vals) is Ok <==> ((forall|i: int|
            0 <= i < sig.len() ==> step_ok(sig, vals, i)) && vals.len() == sig.len()),
        decode_spec(sig, vals) is Ok ==> decode_spec(sig, vals) == Ok::<
            Seq<WireVal>,
            DecodeError,
        >(wire_prefix(sig, vals, sig.len() as int)),
{
    if decode_spec(sig, vals) is Ok {
        lemma_decode_ok_steps(sig, vals, 0);
        if sig.len() > 0 {
            assert(step_ok(sig, vals, sig.len() - 1));
        }
    }
    if (forall|i: int| 0 <= i < sig.len() ==> step_ok(sig, vals, i)) && vals.len() == sig.len() {
        lemma_decode_prefix(sig, vals, sig.len() as int);
        assert(wire_prefix(sig, vals, sig.len() as int) + Seq::<WireVal>::empty() =~= wire_prefix(
            sig,
            vals,
            sig.len() as int,
        ));
    }
}

/// Decoding is a function of the signature and the argument list alone:
/// the same pair always yields the same outcome, so decoding twice yields
/// identical wire-value sequences.
pub proof fn lemma_decode_deterministic(
    sig1: Seq<char>,
    vals1: Seq<ConfigValue>,
    sig2: Seq<char>,
    vals2: Seq<ConfigValue>,
)
    requires
        sig1 == sig2,
        vals1 == vals2,
    ensures
        decode_spec(sig1, vals1) == decode_spec(sig2, vals2),
{
}

/// Collects the characters of a string, in order.
fn str_to_chars(s: &str) -> (r: Vec<char>)
    ensures
        r@ == s@,
{
    broadcast use vstd::string::axiom_spec_iter;
    broadcast use vstd::string::next_postcondition;

    let mut it = s.chars();
    let mut r: Vec<char> = Vec::new();
    loop
        invariant
            r@ + vstd::std_specs::iter::IteratorSpec::remaining(&it) == s@,
            vstd::std_specs::iter::IteratorSpec::decrease(&it) is Some,
        ensures
            r@ + vstd::std_specs::iter::IteratorSpec::remaining(&it) == s@,
            vstd::std_specs::iter::IteratorSpec::remaining(&it).len() == 0,
        decreases vstd::std_specs::iter::IteratorSpec::decrease(&it)->0,
    {
        match it.next() {
            Some(c) => {
                r.push(c);
            },
            None => {
                break ;
            },
        }
    }
    assert(r@ =~= s@);
    r
}

/// Decodes an argument list against a wire signature: each signature tag
/// consumes exactly one argument of the matching kind, left to right; any
/// mismatch, unsupported tag, unreadable signature character, or arity gap
/// is reported as the error of its first offending position.
pub fn decode(signature: &str, args: &Vec<ConfigValue>) -> (r: Result<Vec<WireValue>, DecodeError>)
    ensures
        (match r {
            Ok(ws) => decode_spec(signature@, args@) == Ok::<Seq<WireVal>, DecodeError>(
                ws@.map_values(|w: WireValue| w@),
            ),
            Err(e) => decode_spec(signature@, args@) == Err::<Seq<WireVal>, DecodeError>(e),
        }),
{
    let sig = str_to_chars(signature);
    let mut out: Vec<WireValue> = Vec::new();
    let mut k: usize = 0;
    while k < sig.len()
        invariant
            sig@ == signature@,
            k <= sig.len(),
            out@.len() == k,
            forall|i: int| 0 <= i < k ==> step_ok(sig@, args@, i),
            forall|i: int|
                0 <= i < k ==> (#[trigger] out@[i])@ == wire_of(sig@[i], args@[i]),
        decreases sig.len() - k,
    {
        let t = sig[k];
        let supported: bool = t == 'b' || t == 'u' || t == 's';
        if supported {
            if k >= args.len() {
                proof {
                    lemma_decode_prefix(sig@, args@, k as int);
                }
                return Err(DecodeError::MissingArgument { index: k });
            }
            let w: WireValue = match &args[k] {
                ConfigValue::Bool(b) if t == 'b' => WireValue::Bool(*b),
                ConfigValue::Number(NumberValue::Unsigned(n)) if t == 'u' && *n
                    <= 0xffff_ffffu64 => WireValue::U32(*n as u32),
                ConfigValue::Str(s) if t == 's' => WireValue::Str(s.clone()),
                other => {
                    proof {
                        lemma_decode_prefix(sig@, args@, k as int);
                    }
                    return Err(DecodeError::TypeMismatch {
                        index: k,
                        expected_tag: t,
                        actual_kind: other.kind(),
                    });
                },
            };
            assert(tag_accepts(sig@[k as int], args@[k as int]));
            assert(w@ == wire_of(sig@[k as int], args@[k as int]));
            out.push(w);
        } else {
            let recognized: bool = t == 'y' || t == 'n' || t == 'q' || t == 'i' || t == 'x' || t
                == 't' || t == 'd' || t == 'h' || t == 'o' || t == 'g' || t == 'a' || t == '(' || t
                == '{' || t == 'v';
            proof {
                lemma_decode_prefix(sig@, args@, k as int);
            }
            if recognized {
                return Err(DecodeError::UnsupportedTag { tag: t });
            } else {
                return Err(DecodeError::SignatureSyntax { position: k });
            }
        }
        k = k + 1;
    }
    proof {
        lemma_decode_prefix(sig@, args@, k as int);
    }
    if args.len() > sig.len() {
        return Err(DecodeError::ExtraArguments { expected: sig.len(), given: args.len() });
    }
    assert(out@.map_values(|w: WireValue| w@) =~= wire_prefix(sig@, args@, sig@.len() as int));
    assert(wire_prefix(sig@, args@, sig@.len() as int) + Seq::<WireVal>::empty() =~= wire_prefix(
        sig@,
        args@,
        sig@.len() as int,
    ));
    Ok(out)
}

} // verus!
