//! Deterministic, human-readable rendering of script values, used for
//! diagnostic output only, never for round-tripping.
//!
//! Absence renders as `null`, booleans as `true`/`false`, whole numbers
//! with a trailing `.0`, a number with a fractional part as its whole
//! part marked `~`, text quoted with quote, backslash and control
//! characters escaped, byte strings as bracketed decimals, and maps as
//! `{key: value, ...}` with stable key/value recursion.

use vstd::prelude::*;

verus! {

use crate::value::{Value, ValView, Num, ConversionError, ConvErrView, pairs_view_of,
    lemma_pairs_view_of};
use crate::numtext::{dec_int, dec_digits, push_decimal_signed, push_decimal};
use crate::codec::{hex_digits, push_hex_num};
use vstd::string::StringExecFns;
use vstd::string::StrSliceExecFns;

broadcast use vstd::seq::group_seq_axioms, vstd::std_specs::vec::group_vec_axioms;

/// One rendered text character: quote and backslash are escaped with a
/// backslash, the common control characters by name, any other control
/// character (and delete) as `\u{..}` with the code in lower-case hex;
/// every remaining character stands as itself.
pub open spec fn escaped_char(c: char) -> Seq<char> {
    if c == '"' {
        seq!['\\', '"']
    } else if c == '\\' {
        seq!['\\', '\\']
    } else if c == '\n' {
        seq!['\\', 'n']
    } else if c == '\r' {
        seq!['\\', 'r']
    } else if c == '\t' {
        seq!['\\', 't']
    } else if (c as u32) < 32 || (c as u32) == 127 {
        seq!['\\', 'u', '{'] + hex_digits(c as int) + seq!['}']
    } else {
        seq![c]
    }
}

/// Escaped text, character by character.
pub open spec fn escaped_text(s: Seq<char>) -> Seq<char>
    decreases s.len(),
{
    if s.len() == 0 {
        Seq::empty()
    } else {
        escaped_text(s.drop_last()) + escaped_char(s.last())
    }
}

/// The rendering of a script number: a whole number as its integer and a
/// trailing `.0`; one with a fractional part as its whole part marked
/// approximate with a leading `~`.
pub open spec fn render_num(n: Num) -> Seq<char> {
    if n.exact {
        dec_int(n.trunc as int) + ".0"@
    } else {
        seq!['~'] + dec_int(n.trunc as int)
    }
}

/// Rendered byte contents: decimal values, comma separated.
pub open spec fn render_bytes(b: Seq<u8>) -> Seq<char>
    decreases b.len(),
{
    if b.len() == 0 {
        Seq::empty()
    } else if b.len() == 1 {
        dec_digits(b[0] as int)
    } else {
        render_bytes(b.drop_last()) + ", "@ + dec_digits(b.last() as int)
    }
}

/// The rendering of a script value.
pub open spec fn render_value(v: ValView) -> Seq<char>
    decreases v,
{
    match v {
        ValView::Nil => "null"@,
        ValView::Bool(b) => if b {
            "true"@
        } else {
            "false"@
        },
        ValView::Num(n) => render_num(n),
        ValView::Str(s) => seq!['"'] + escaped_text(s) + seq!['"'],
        ValView::Bytes(b) => seq!['['] + render_bytes(b) + seq![']'],
        ValView::Arr(pairs) => seq!['{'] + render_pairs(pairs) + seq!['}'],
        ValView::Other => "LuaOther"@,
    }
}

/// The renderings of a map's pairs, comma separated, each `key: value`.
pub open spec fn render_pairs(pairs: Seq<(ValView, ValView)>) -> Seq<char>
    decreases pairs,
{
    if pairs.len() == 0 {
        Seq::empty()
    } else if pairs.len() == 1 {
        render_value(pairs[0].0) + ": "@ + render_value(pairs[0].1)
    } else {
        let last = pairs[pairs.len() - 1];
        render_pairs(pairs.drop_last()) + ", "@ + render_value(last.0) + ": "@ + render_value(
            last.1,
        )
    }
}

/// Appends the escaped form of one text string.
#[verifier::loop_isolation(false)]
fn push_escaped(out: &mut String, s: &str)
    ensures
        final(out)@ == old(out)@ + escaped_text(s@),
{
    proof {
        reveal_strlit("\\\"");
        reveal_strlit("\\\\");
        reveal_strlit("\\n");
        reveal_strlit("\\r");
        reveal_strlit("\\t");
        reveal_strlit("\\u{");
        reveal_strlit("}");
    }
    let n = s.unicode_len();
    let mut i: usize = 0;
    proof {
        assert(escaped_text(s@.take(0)) =~= Seq::<char>::empty());
        assert(out@ =~= old(out)@ + escaped_text(s@.take(0)));
    }
    while i < n
        invariant
            i <= n,
            n == s@.len(),
            out@ == old(out)@ + escaped_text(s@.take(i as int)),
        decreases n - i,
    {
        let c = s.get_char(i);
        let code = c as u32;
        if c == '"' {
            out.append("\\\"");
        } else if c == '\\' {
            out.append("\\\\");
        } else if c == '\n' {
            out.append("\\n");
        } else if c == '\r' {
            out.append("\\r");
        } else if c == '\t' {
            out.append("\\t");
        } else if code < 32 || code == 127 {
            out.append("\\u{");
            push_hex_num(out, code);
            out.append("}");
        } else {
            let piece = s.substring_char(i, i + 1);
            proof {
                assert(piece@ =~= seq![s@[i as int]]);
            }
            out.append(piece);
        }
        proof {
            assert(s@.take(i + 1).drop_last() =~= s@.take(i as int));
            assert(s@.take(i + 1).last() == s@[i as int]);
            assert(out@ =~= old(out)@ + escaped_text(s@.take(i + 1)));
        }
        i += 1;
    }
    proof {
        assert(s@.take(n as int) =~= s@);
    }
}

/// Appends the rendering of a script number.
fn push_num(out: &mut String, n: Num)
    ensures
        final(out)@ == old(out)@ + render_num(n),
{
    if n.exact {
        push_decimal_signed(out, n.trunc);
        out.append(".0");
        proof {
            assert(out@ =~= old(out)@ + render_num(n));
        }
    } else {
        proof {
            reveal_strlit("~");
        }
        out.append("~");
        push_decimal_signed(out, n.trunc);
        proof {
            assert(out@ =~= old(out)@ + render_num(n));
        }
    }
}

/// Appends the bracketed rendering of a byte string.
#[verifier::loop_isolation(false)]
fn push_bytes(out: &mut String, b: &Vec<u8>)
    ensures
        final(out)@ == old(out)@ + seq!['['] + render_bytes(b@) + seq![']'],
{
    proof {
        reveal_strlit("[");
        reveal_strlit("]");
        reveal_strlit(", ");
    }
    out.append("[");
    let mut i: usize = 0;
    proof {
        assert(out@ =~= old(out)@ + seq!['['] + render_bytes(b@.take(0)));
    }
    while i < b.len()
        invariant
            i <= b@.len(),
            out@ == old(out)@ + seq!['['] + render_bytes(b@.take(i as int)),
        decreases b@.len() - i,
    {
        if i > 0 {
            out.append(", ");
        }
        push_decimal(out, b[i] as u64);
        proof {
            assert(b@.take(i + 1).drop_last() =~= b@.take(i as int));
            assert(b@.take(i + 1).last() == b@[i as int]);
            assert(out@ =~= old(out)@ + seq!['['] + render_bytes(b@.take(i + 1)));
        }
        i += 1;
    }
    out.append("]");
    proof {
        assert(b@.take(b@.len() as int) =~= b@);
        assert(out@ =~= old(out)@ + seq!['['] + render_bytes(b@) + seq![']']);
    }
}

/// Renders a script value to its diagnostic text, exactly as
/// [`render_value`] says.
#[verifier::loop_isolation(false)]
pub fn render(v: &Value) -> (r: String)
    ensures
        r@ == render_value(v@),
    decreases *v,
{
    match v {
        Value::Nil => "null".to_owned(),
        Value::Bool(b) => if *b {
            "true".to_owned()
        } else {
            "false".to_owned()
        },
        Value::Num(n) => {
            let mut out = String::new();
            push_num(&mut out, *n);
            out
        },
        Value::Str(s) => {
            proof {
                reveal_strlit("\"");
            }
            let mut out = String::new();
            out.append("\"");
            push_escaped(&mut out, s.as_str());
            out.append("\"");
            proof {
                assert(out@ =~= render_value(v@));
            }
            out
        },
        Value::Bytes(b) => {
            let mut out = String::new();
            push_bytes(&mut out, b);
            proof {
                assert(out@ =~= render_value(v@));
            }
            out
        },
        Value::Arr(pairs) => {
            proof {
                reveal_strlit("{");
                reveal_strlit("}");
                reveal_strlit(", ");
                reveal_strlit(": ");
            }
            let ghost pv = pairs_view_of(pairs@);
            proof {
                assert(v@ == ValView::Arr(pv));
                lemma_pairs_view_of(pairs@);
            }
            let mut out = String::new();
            out.append("{");
            let mut i: usize = 0;
            proof {
                assert(out@ =~= seq!['{'] + render_pairs(pv.take(0)));
            }
            while i < pairs.len()
                invariant
                    i <= pairs.len(),
                    pv == pairs_view_of(pairs@),
                    pv.len() == pairs.len(),
                    out@ == seq!['{'] + render_pairs(pv.take(i as int)),
                decreases pairs.len() - i,
            {
                proof {
                    lemma_pairs_view_of(pairs@);
                    assert(pv[i as int] == (pairs@[i as int].0@, pairs@[i as int].1@));
                    assert((*v)->Arr_0 == *pairs);
                    assert(decreases_to!(*v => (*v)->Arr_0));
                    assert(decreases_to!(*v => pairs@[i as int].0)) by {
                        assert(decreases_to!(*pairs => pairs@));
                        assert(decreases_to!(pairs@ => pairs@[i as int]));
                    }
                    assert(decreases_to!(*v => pairs@[i as int].1));
                }
                if i > 0 {
                    out.append(", ");
                }
                let key_text = render(&pairs[i].0);
                out.append(key_text.as_str());
                out.append(": ");
                let val_text = render(&pairs[i].1);
                out.append(val_text.as_str());
                proof {
                    assert(pv.take(i + 1).drop_last() =~= pv.take(i as int));
                    assert(pv.take(i + 1).last() == pv[i as int]);
                    assert(out@ =~= seq!['{'] + render_pairs(pv.take(i + 1)));
                }
                i += 1;
            }
            out.append("}");
            proof {
                assert(pv.take(pv.len() as int) =~= pv);
                assert(out@ =~= render_value(v@));
            }
            out
        },
        Value::Other => "LuaOther".to_owned(),
    }
}

/// The diagnostic text for a failed byte conversion, naming the
/// offending value.
pub open spec fn conv_err_text(e: ConvErrView) -> Seq<char> {
    match e {
        ConvErrView::NumOutOfRange(n) => "number is out of range: "@ + render_num(n),
        ConvErrView::UnexpectedType(k, v) => "unexpected type: ("@ + render_value(k) + ", "@
            + render_value(v) + ")"@,
        ConvErrView::InvalidType(v) => "invalid type: "@ + render_value(v),
    }
}

/// Builds the diagnostic message for a failed byte conversion, exactly
/// as [`conv_err_text`] says.
pub fn conv_err_message(e: &ConversionError) -> (r: String)
    ensures
        r@ == conv_err_text(e@),
{
    match e {
        ConversionError::NumOutOfRange(n) => {
            let mut out = "number is out of range: ".to_owned();
            push_num(&mut out, *n);
            out
        },
        ConversionError::UnexpectedType(k, v) => {
            proof {
                reveal_strlit(", ");
            }
            let mut out = "unexpected type: (".to_owned();
            let key_text = render(k);
            out.append(key_text.as_str());
            out.append(", ");
            let val_text = render(v);
            out.append(val_text.as_str());
            out.append(")");
            proof {
                assert(out@ =~= conv_err_text(e@));
            }
            out
        },
        ConversionError::InvalidType(v) => {
            let mut out = "invalid type: ".to_owned();
            let val_text = render(v);
            out.append(val_text.as_str());
            proof {
                assert(out@ =~= conv_err_text(e@));
            }
            out
        },
    }
}

} // verus!
