//! The dynamic value model crossing the script/host boundary, and the
//! marshalling between it and native byte sequences.
//!
//! A script value is a closed tagged union: absence, boolean, number,
//! text string, opaque byte string, or an ordered sequence of key/value
//! pairs (used both as array and as map).  Byte strings and text strings
//! are distinct variants: a byte string is never assumed to be valid text.

use vstd::prelude::*;

verus! {

use vstd::utf8::encode_utf8;
use vstd::string::StringSliceAdditionalSpecFns;
use vstd::slice::slice_to_vec;

broadcast use vstd::seq::group_seq_axioms, vstd::std_specs::vec::group_vec_axioms;

/// A script number, as the marshaller reads it: the double truncated
/// toward zero, and whether the double is exactly that whole number.
/// Only exact numbers in `[0, 255]` may stand for a byte.
#[derive(Clone, Copy, PartialEq, Eq, Structural, Debug)]
pub struct Num {
    /// The number truncated toward zero.
    pub trunc: i64,
    /// True when the script number is exactly `trunc`.
    pub exact: bool,
}

/// A dynamic script value.
#[derive(Debug)]
pub enum Value {
    /// Absence / null.
    Nil,
    /// A boolean.
    Bool(bool),
    /// A double-precision number, as modelled by [`Num`].
    Num(Num),
    /// A text string.
    Str(String),
    /// An opaque byte string; never assumed to be valid text.
    Bytes(Vec<u8>),
    /// An ordered sequence of key/value pairs (array or map).
    Arr(Vec<(Value, Value)>),
    /// A value of a kind the bridge does not model; excluded from every
    /// conversion.
    Other,
}

/// The mathematical shape of a [`Value`].
#[verifier::ext_equal]
pub enum ValView {
    Nil,
    Bool(bool),
    Num(Num),
    Str(Seq<char>),
    Bytes(Seq<u8>),
    Arr(Seq<(ValView, ValView)>),
    Other,
}

/// The shapes of the pairs of an array value, in order.
pub open spec fn pairs_view_of(pairs: Seq<(Value, Value)>) -> Seq<(ValView, ValView)>
    decreases pairs,
{
    if pairs.len() == 0 {
        Seq::empty()
    } else {
        let last = pairs[pairs.len() - 1];
        pairs_view_of(pairs.drop_last()).push((val_view(last.0), val_view(last.1)))
    }
}

/// The mathematical shape of a script value.
pub open spec fn val_view(v: Value) -> ValView
    decreases v,
{
    match v {
        Value::Nil => ValView::Nil,
        Value::Bool(b) => ValView::Bool(b),
        Value::Num(n) => ValView::Num(n),
        Value::Str(s) => ValView::Str(s@),
        Value::Bytes(b) => ValView::Bytes(b@),
        Value::Arr(pairs) => ValView::Arr(pairs_view_of(pairs@)),
        Value::Other => ValView::Other,
    }
}

impl View for Value {
    type V = ValView;

    open spec fn view(&self) -> ValView {
        val_view(*self)
    }
}

/// The shape list of an array's pairs is the pairs' shapes, pointwise.
pub proof fn lemma_pairs_view_of(s: Seq<(Value, Value)>)
    ensures
        pairs_view_of(s).len() == s.len(),
        forall|i: int|
            0 <= i < s.len() ==> #[trigger] pairs_view_of(s)[i] == (s[i].0@, s[i].1@),
    decreases s.len(),
{
    if s.len() > 0 {
        lemma_pairs_view_of(s.drop_last());
    }
}

/// The shapes of a list of script values, in order.
pub open spec fn vals_view(s: Seq<Value>) -> Seq<ValView>
    decreases s,
{
    if s.len() == 0 {
        Seq::empty()
    } else {
        vals_view(s.drop_last()).push(val_view(s[s.len() - 1]))
    }
}

/// The shape list of a value list is the values' shapes, pointwise.
pub proof fn lemma_vals_view(s: Seq<Value>)
    ensures
        vals_view(s).len() == s.len(),
        forall|i: int| 0 <= i < s.len() ==> #[trigger] vals_view(s)[i] == s[i]@,
    decreases s.len(),
{
    if s.len() > 0 {
        lemma_vals_view(s.drop_last());
    }
}

/// A failed conversion of a script value to a native byte sequence,
/// carrying the offending value so a diagnostic can name it.
#[derive(Debug)]
pub enum ConversionError {
    /// An array element was a number, but not a whole number in `[0, 255]`.
    NumOutOfRange(Num),
    /// An array element (the key/value pair) was not a number at all.
    UnexpectedType(Value, Value),
    /// The value as a whole has no byte-sequence reading.
    InvalidType(Value),
}

/// The mathematical shape of a [`ConversionError`].
#[verifier::ext_equal]
pub enum ConvErrView {
    NumOutOfRange(Num),
    UnexpectedType(ValView, ValView),
    InvalidType(ValView),
}

impl View for ConversionError {
    type V = ConvErrView;

    open spec fn view(&self) -> ConvErrView {
        match self {
            ConversionError::NumOutOfRange(n) => ConvErrView::NumOutOfRange(*n),
            ConversionError::UnexpectedType(k, v) => ConvErrView::UnexpectedType(k@, v@),
            ConversionError::InvalidType(v) => ConvErrView::InvalidType(v@),
        }
    }
}

/// The byte a script number stands for, if any: the number must be exact
/// and lie in `[0, 255]`.
pub open spec fn byte_of_num(n: Num) -> Option<u8> {
    if n.exact && 0 <= n.trunc <= 255 {
        Some(n.trunc as u8)
    } else {
        None
    }
}

/// Byte-sequence reading of the pair list of an array value, from
/// position `i` on: each pair's value must be a byte-standing number;
/// the first offender decides the error.
pub open spec fn bytes_of_pairs_from(pv: Seq<(ValView, ValView)>, i: int) -> Result<
    Seq<u8>,
    ConvErrView,
>
    decreases pv.len() - i,
{
    if i < 0 || i >= pv.len() {
        Ok(Seq::empty())
    } else {
        match pv[i].1 {
            ValView::Num(n) => match byte_of_num(n) {
                Some(b) => match bytes_of_pairs_from(pv, i + 1) {
                    Ok(rest) => Ok(seq![b] + rest),
                    Err(e) => Err(e),
                },
                None => Err(ConvErrView::NumOutOfRange(n)),
            },
            _ => Err(ConvErrView::UnexpectedType(pv[i].0, pv[i].1)),
        }
    }
}

/// What `to_native_bytes` returns for each script value: byte strings
/// pass through, text is UTF-8 encoded, numeric arrays become bytes
/// element by element, and everything else is a conversion failure.
pub open spec fn bytes_of_value(v: ValView) -> Result<Seq<u8>, ConvErrView> {
    match v {
        ValView::Bytes(b) => Ok(b),
        ValView::Str(s) => Ok(encode_utf8(s)),
        ValView::Arr(pv) => bytes_of_pairs_from(pv, 0),
        _ => Err(ConvErrView::InvalidType(v)),
    }
}

/// Converts a script value to a native byte sequence, exactly as
/// [`bytes_of_value`] says.
#[verifier::loop_isolation(false)]
pub fn to_native_bytes(v: Value) -> (r: Result<Vec<u8>, ConversionError>)
    ensures
        match r {
            Ok(b) => bytes_of_value(v@) == Ok::<Seq<u8>, ConvErrView>(b@),
            Err(e) => bytes_of_value(v@) == Err::<Seq<u8>, ConvErrView>(e@),
        },
{
    let ghost vv = v@;
    match v {
        Value::Bytes(b) => Ok(b),
        Value::Str(s) => {
            let b = s.as_str().as_bytes_vec();
            Ok(b)
        },
        Value::Arr(mut pairs) => {
            let ghost pv = pairs_view_of(pairs@);
            let mut out: Vec<u8> = Vec::new();
            let mut i: usize = 0;
            proof {
                assert(vv == ValView::Arr(pv));
                lemma_pairs_view_of(pairs@);
                assert(bytes_of_pairs_from(pv, 0) == (match bytes_of_pairs_from(pv, 0) {
                    Ok(rest) => Ok::<Seq<u8>, ConvErrView>(out@ + rest),
                    Err(e) => Err::<Seq<u8>, ConvErrView>(e),
                })) by {
                    match bytes_of_pairs_from(pv, 0) {
                        Ok(rest) => {
                            assert(out@ + rest =~= rest);
                        },
                        Err(_) => {},
                    }
                }
            }
            while i < pairs.len()
                invariant
                    i <= pairs.len(),
                    vv == ValView::Arr(pv),
                    pv == pairs_view_of(pairs@),
                    pv.len() == pairs.len(),
                    bytes_of_pairs_from(pv, 0) == (match bytes_of_pairs_from(pv, i as int) {
                        Ok(rest) => Ok::<Seq<u8>, ConvErrView>(out@ + rest),
                        Err(e) => Err::<Seq<u8>, ConvErrView>(e),
                    }),
                decreases pairs.len() - i,
            {
                proof {
                    lemma_pairs_view_of(pairs@);
                    assert(pv[i as int] == (pairs@[i as int].0@, pairs@[i as int].1@));
                }
                let byte_opt: Option<u8> = match &pairs[i].1 {
                    Value::Num(n) => {
                        if n.exact && 0 <= n.trunc && n.trunc <= 255 {
                            Some(n.trunc as u8)
                        } else {
                            proof {
                                assert(pv[i as int].1 == ValView::Num(*n));
                                assert(bytes_of_pairs_from(pv, i as int) == Err::<
                                    Seq<u8>,
                                    ConvErrView,
                                >(ConvErrView::NumOutOfRange(*n)));
                                assert(bytes_of_value(vv) == Err::<Seq<u8>, ConvErrView>(
                                    ConvErrView::NumOutOfRange(*n)));
                            }
                            return Err(ConversionError::NumOutOfRange(*n));
                        }
                    },
                    _ => None,
                };
                match byte_opt {
                    Some(b) => {
                        let ghost out0 = out@;
                        out.push(b);
                        proof {
                            assert(pv[i as int].1 matches ValView::Num(n) && byte_of_num(n)
                                == Some(b));
                            match bytes_of_pairs_from(pv, i + 1) {
                                Ok(rest) => {
                                    assert(out0 + (seq![b] + rest) =~= out@ + rest);
                                },
                                Err(_) => {},
                            }
                        }
                        i += 1;
                    },
                    None => {
                        let ghost pvi = pv[i as int];
                        proof {
                            assert(!(pvi.1 is Num));
                            assert(bytes_of_pairs_from(pv, i as int) == Err::<
                                Seq<u8>,
                                ConvErrView,
                            >(ConvErrView::UnexpectedType(pvi.0, pvi.1)));
                            assert(bytes_of_value(vv) == Err::<Seq<u8>, ConvErrView>(
                                ConvErrView::UnexpectedType(pvi.0, pvi.1)));
                        }
                        let p = pairs.remove(i);
                        return Err(ConversionError::UnexpectedType(p.0, p.1));
                    },
                }
            }
            proof {
                assert(bytes_of_pairs_from(pv, i as int) == Ok::<Seq<u8>, ConvErrView>(
                    Seq::empty(),
                ));
                assert(out@ + Seq::<u8>::empty() =~= out@);
            }
            Ok(out)
        },
        other => Err(ConversionError::InvalidType(other)),
    }
}

/// Marshals a native byte sequence into the script value model: always
/// the opaque byte-string variant, never auto-decoded as text.
pub fn from_native_bytes(b: &[u8]) -> (r: Value)
    ensures
        r@ == ValView::Bytes(b@),
{
    Value::Bytes(slice_to_vec(b))
}

/// Round trip: any byte sequence marshalled into the script value model
/// converts back to exactly the same byte sequence.
pub proof fn lemma_bytes_round_trip(b: Seq<u8>)
    ensures
        bytes_of_value(ValView::Bytes(b)) == Ok::<Seq<u8>, ConvErrView>(b),
{
}

/// A one-element numeric array converts to the one-byte sequence holding
/// that number when it is a whole number in `[0, 255]`, and fails with
/// the out-of-range conversion error otherwise.
pub proof fn lemma_single_number_array(k: ValView, n: Num)
    ensures
        byte_of_num(n) is Some ==> bytes_of_value(ValView::Arr(seq![(k, ValView::Num(n))]))
            == Ok::<Seq<u8>, ConvErrView>(seq![(n.trunc as u8)]),
        byte_of_num(n) is None ==> bytes_of_value(ValView::Arr(seq![(k, ValView::Num(n))]))
            == Err::<Seq<u8>, ConvErrView>(ConvErrView::NumOutOfRange(n)),
{
    let pv = seq![(k, ValView::Num(n))];
    if byte_of_num(n) is Some {
        let b = byte_of_num(n)->Some_0;
        assert(bytes_of_pairs_from(pv, 1) == Ok::<Seq<u8>, ConvErrView>(Seq::empty()));
        assert(seq![b] + Seq::<u8>::empty() =~= seq![b]);
    }
}

} // verus!
