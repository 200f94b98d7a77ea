//! Options of a pending network request: the recognized keys, the parsed
//! configuration, and the validation of a script-supplied option map.
//!
//! Recognized keys are `headers`, `query`, `body`, `timeout`, `proxy`,
//! `tls_verify` and `follow_redirects`; an unrecognized key, a non-text
//! key, or a value of the wrong shape makes the whole map invalid.

use vstd::prelude::*;

verus! {

use crate::value::{Value, ValView, bytes_of_value, to_native_bytes, pairs_view_of,
    lemma_pairs_view_of};
use crate::strutil::str_eq;

broadcast use vstd::seq::group_seq_axioms, vstd::std_specs::vec::group_vec_axioms;

/// Parsed, well-formed configuration of a pending request.
#[derive(Debug)]
pub struct RequestOptions {
    /// Extra header fields, in order, duplicate names kept.
    pub headers: Vec<(String, String)>,
    /// Query parameters, in order.
    pub query: Vec<(String, String)>,
    /// Request body, if any.
    pub body: Option<Vec<u8>>,
    /// Per-call timeout in whole seconds, if any.
    pub timeout: Option<u64>,
    /// Proxy URL, if any.
    pub proxy: Option<String>,
    /// Whether the transport verifies TLS certificates.
    pub tls_verify: bool,
    /// Whether the transport follows redirects.
    pub follow_redirects: bool,
}

/// The mathematical shape of a [`RequestOptions`].
#[verifier::ext_equal]
pub struct OptView {
    pub headers: Seq<(Seq<char>, Seq<char>)>,
    pub query: Seq<(Seq<char>, Seq<char>)>,
    pub body: Option<Seq<u8>>,
    pub timeout: Option<u64>,
    pub proxy: Option<Seq<char>>,
    pub tls_verify: bool,
    pub follow_redirects: bool,
}

/// Character-sequence view of a list of string pairs.
pub open spec fn pairs_view(ps: Seq<(String, String)>) -> Seq<(Seq<char>, Seq<char>)> {
    Seq::new(ps.len(), |i: int| (ps[i].0@, ps[i].1@))
}

impl View for RequestOptions {
    type V = OptView;

    open spec fn view(&self) -> OptView {
        OptView {
            headers: pairs_view(self.headers@),
            query: pairs_view(self.query@),
            body: match self.body {
                Some(b) => Some(b@),
                None => None,
            },
            timeout: self.timeout,
            proxy: match self.proxy {
                Some(p) => Some(p@),
                None => None,
            },
            tls_verify: self.tls_verify,
            follow_redirects: self.follow_redirects,
        }
    }
}

impl Clone for RequestOptions {
    /// Clones the configuration, keeping its shape.
    fn clone(&self) -> (res: Self)
        ensures
            res@ == self@,
    {
        let res = RequestOptions {
            headers: crate::strutil::clone_str_pairs(&self.headers),
            query: crate::strutil::clone_str_pairs(&self.query),
            body: match &self.body {
                Some(b) => Some(crate::strutil::clone_bytes(b)),
                None => None,
            },
            timeout: self.timeout,
            proxy: match &self.proxy {
                Some(p) => Some(p.clone()),
                None => None,
            },
            tls_verify: self.tls_verify,
            follow_redirects: self.follow_redirects,
        };
        proof {
            assert(pairs_view(res.headers@) =~= pairs_view(self.headers@));
            assert(pairs_view(res.query@) =~= pairs_view(self.query@));
            assert(res@ =~= self@);
        }
        res
    }
}

/// The configuration an empty option map parses to.
pub open spec fn default_options() -> OptView {
    OptView {
        headers: Seq::empty(),
        query: Seq::empty(),
        body: None,
        timeout: None,
        proxy: None,
        tls_verify: true,
        follow_redirects: true,
    }
}

/// The default configuration as an executable value.
pub fn default_request_options() -> (r: RequestOptions)
    ensures
        r@ == default_options(),
{
    let r = RequestOptions {
        headers: Vec::new(),
        query: Vec::new(),
        body: None,
        timeout: None,
        proxy: None,
        tls_verify: true,
        follow_redirects: true,
    };
    proof {
        assert(r@ =~= default_options());
    }
    r
}

/// A rejected option map.
#[derive(Debug)]
pub enum OptionsError {
    /// The options value was not a key/value map at all.
    NotAMap,
    /// A key was not a text string.
    KeyNotText,
    /// A key is not in the recognized set; carries the key.
    UnknownKey(String),
    /// A recognized key carried a value of the wrong shape; carries the key.
    BadValue(String),
}

/// The mathematical shape of an [`OptionsError`].
#[verifier::ext_equal]
pub enum OptErrView {
    NotAMap,
    KeyNotText,
    UnknownKey(Seq<char>),
    BadValue(Seq<char>),
}

impl View for OptionsError {
    type V = OptErrView;

    open spec fn view(&self) -> OptErrView {
        match self {
            OptionsError::NotAMap => OptErrView::NotAMap,
            OptionsError::KeyNotText => OptErrView::KeyNotText,
            OptionsError::UnknownKey(k) => OptErrView::UnknownKey(k@),
            OptionsError::BadValue(k) => OptErrView::BadValue(k@),
        }
    }
}

/// The string-pair reading of a script value: it must be a map whose keys
/// and values are all text.
pub open spec fn str_pairs_of(v: ValView) -> Option<Seq<(Seq<char>, Seq<char>)>> {
    match v {
        ValView::Arr(pv) => if forall|i: int|
            0 <= i < pv.len() ==> (#[trigger] pv[i]).0 is Str && pv[i].1 is Str {
            Some(Seq::new(pv.len(), |i: int| (pv[i].0->Str_0, pv[i].1->Str_0)))
        } else {
            None
        },
        _ => None,
    }
}

/// How one key/value pair of the option map refines a configuration.
pub open spec fn apply_option(acc: OptView, key: ValView, val: ValView) -> Result<
    OptView,
    OptErrView,
> {
    match key {
        ValView::Str(k) => if k == "headers"@ {
            match str_pairs_of(val) {
                Some(hs) => Ok(OptView { headers: hs, ..acc }),
                None => Err(OptErrView::BadValue(k)),
            }
        } else if k == "query"@ {
            match str_pairs_of(val) {
                Some(qs) => Ok(OptView { query: qs, ..acc }),
                None => Err(OptErrView::BadValue(k)),
            }
        } else if k == "body"@ {
            match bytes_of_value(val) {
                Ok(b) => Ok(OptView { body: Some(b), ..acc }),
                Err(_) => Err(OptErrView::BadValue(k)),
            }
        } else if k == "timeout"@ {
            match val {
                ValView::Num(n) => if n.exact && n.trunc >= 0 {
                    Ok(OptView { timeout: Some(n.trunc as u64), ..acc })
                } else {
                    Err(OptErrView::BadValue(k))
                },
                _ => Err(OptErrView::BadValue(k)),
            }
        } else if k == "proxy"@ {
            match val {
                ValView::Str(p) => Ok(OptView { proxy: Some(p), ..acc }),
                _ => Err(OptErrView::BadValue(k)),
            }
        } else if k == "tls_verify"@ {
            match val {
                ValView::Bool(b) => Ok(OptView { tls_verify: b, ..acc }),
                _ => Err(OptErrView::BadValue(k)),
            }
        } else if k == "follow_redirects"@ {
            match val {
                ValView::Bool(b) => Ok(OptView { follow_redirects: b, ..acc }),
                _ => Err(OptErrView::BadValue(k)),
            }
        } else {
            Err(OptErrView::UnknownKey(k))
        },
        _ => Err(OptErrView::KeyNotText),
    }
}

/// Folds the pairs of the option map from position `i` on over a
/// configuration; the first offending pair decides the error.
pub open spec fn parse_options_from(pv: Seq<(ValView, ValView)>, i: int, acc: OptView) -> Result<
    OptView,
    OptErrView,
>
    decreases pv.len() - i,
{
    if i < 0 || i >= pv.len() {
        Ok(acc)
    } else {
        match apply_option(acc, pv[i].0, pv[i].1) {
            Ok(a2) => parse_options_from(pv, i + 1, a2),
            Err(e) => Err(e),
        }
    }
}

/// What the option map of a request parses to: a key/value map refining
/// the default configuration, or the first error.
pub open spec fn options_of_value(v: ValView) -> Result<OptView, OptErrView> {
    match v {
        ValView::Arr(pv) => parse_options_from(pv, 0, default_options()),
        _ => Err(OptErrView::NotAMap),
    }
}

/// Reads a script value as a list of text pairs, exactly as
/// [`str_pairs_of`] says.
#[verifier::loop_isolation(false)]
fn read_str_pairs(v: Value) -> (r: Option<Vec<(String, String)>>)
    ensures
        match r {
            Some(ps) => str_pairs_of(v@) == Some(pairs_view(ps@)),
            None => str_pairs_of(v@) is None,
        },
{
    let ghost vv = v@;
    match v {
        Value::Arr(pairs) => {
            let ghost pv = pairs_view_of(pairs@);
            let mut out: Vec<(String, String)> = Vec::new();
            let mut i: usize = 0;
            proof {
                assert(vv == ValView::Arr(pv));
                lemma_pairs_view_of(pairs@);
            }
            while i < pairs.len()
                invariant
                    i <= pairs.len(),
                    vv == ValView::Arr(pv),
                    pv == pairs_view_of(pairs@),
                    pv.len() == pairs.len(),
                    out@.len() == i,
                    forall|j: int|
                        0 <= j < i ==> (#[trigger] pv[j]).0 is Str && pv[j].1 is Str
                            && out@[j].0@ == pv[j].0->Str_0 && out@[j].1@ == pv[j].1->Str_0,
                decreases pairs.len() - i,
            {
                proof {
                    lemma_pairs_view_of(pairs@);
                    assert(pv[i as int] == (pairs@[i as int].0@, pairs@[i as int].1@));
                }
                match (&pairs[i].0, &pairs[i].1) {
                    (Value::Str(a), Value::Str(b)) => {
                        out.push((a.clone(), b.clone()));
                    },
                    _ => {
                        proof {
                            assert(!((pv[i as int]).0 is Str && pv[i as int].1 is Str));
                            assert(!(forall|j: int|
                                0 <= j < pv.len() ==> (#[trigger] pv[j]).0 is Str
                                    && pv[j].1 is Str));
                            assert(str_pairs_of(vv) is None);
                        }
                        return None;
                    },
                }
                i += 1;
            }
            proof {
                assert(str_pairs_of(vv) == Some(pairs_view(out@))) by {
                    assert(forall|j: int|
                        0 <= j < pv.len() ==> (#[trigger] pv[j]).0 is Str && pv[j].1 is Str);
                    assert(Seq::new(pv.len(), |j: int| (pv[j].0->Str_0, pv[j].1->Str_0))
                        =~= pairs_view(out@));
                }
            }
            Some(out)
        },
        _ => None,
    }
}

/// Refines a configuration by one key/value pair, exactly as
/// [`apply_option`] says.
fn apply_option_exec(base: RequestOptions, key: Value, val: Value) -> (r: Result<
    RequestOptions,
    OptionsError,
>)
    ensures
        match r {
            Ok(a2) => apply_option(base@, key@, val@) == Ok::<OptView, OptErrView>(a2@),
            Err(e) => apply_option(base@, key@, val@) == Err::<OptView, OptErrView>(e@),
        },
{
    let mut acc = base;
    let k = match key {
        Value::Str(k) => k,
        _ => {
            return Err(OptionsError::KeyNotText);
        },
    };
    if str_eq(k.as_str(), "headers") {
        match read_str_pairs(val) {
            Some(hs) => {
                acc.headers = hs;
                proof {
                    assert(acc@ =~= OptView { headers: pairs_view(acc.headers@), ..base@ });
                }
                Ok(acc)
            },
            None => Err(OptionsError::BadValue(k)),
        }
    } else if str_eq(k.as_str(), "query") {
        match read_str_pairs(val) {
            Some(qs) => {
                acc.query = qs;
                proof {
                    assert(acc@ =~= OptView { query: pairs_view(acc.query@), ..base@ });
                }
                Ok(acc)
            },
            None => Err(OptionsError::BadValue(k)),
        }
    } else if str_eq(k.as_str(), "body") {
        match to_native_bytes(val) {
            Ok(b) => {
                acc.body = Some(b);
                proof {
                    assert(acc@ =~= OptView {
                        body: match acc.body {
                            Some(b) => Some(b@),
                            None => None,
                        },
                        ..base@
                    });
                }
                Ok(acc)
            },
            Err(_) => Err(OptionsError::BadValue(k)),
        }
    } else if str_eq(k.as_str(), "timeout") {
        match val {
            Value::Num(n) => {
                if n.exact && n.trunc >= 0 {
                    acc.timeout = Some(n.trunc as u64);
                    proof {
                        assert(acc@ =~= OptView { timeout: acc.timeout, ..base@ });
                    }
                    Ok(acc)
                } else {
                    Err(OptionsError::BadValue(k))
                }
            },
            _ => Err(OptionsError::BadValue(k)),
        }
    } else if str_eq(k.as_str(), "proxy") {
        match val {
            Value::Str(p) => {
                acc.proxy = Some(p);
                proof {
                    assert(acc@ =~= OptView {
                        proxy: match acc.proxy {
                            Some(p) => Some(p@),
                            None => None,
                        },
                        ..base@
                    });
                }
                Ok(acc)
            },
            _ => Err(OptionsError::BadValue(k)),
        }
    } else if str_eq(k.as_str(), "tls_verify") {
        match val {
            Value::Bool(b) => {
                acc.tls_verify = b;
                proof {
                    assert(acc@ =~= OptView { tls_verify: acc.tls_verify, ..base@ });
                }
                Ok(acc)
            },
            _ => Err(OptionsError::BadValue(k)),
        }
    } else if str_eq(k.as_str(), "follow_redirects") {
        match val {
            Value::Bool(b) => {
                acc.follow_redirects = b;
                proof {
                    assert(acc@ =~= OptView { follow_redirects: acc.follow_redirects, ..base@ });
                }
                Ok(acc)
            },
            _ => Err(OptionsError::BadValue(k)),
        }
    } else {
        Err(OptionsError::UnknownKey(k))
    }
}

/// Validates a script-supplied option map into a well-formed
/// configuration, exactly as [`options_of_value`] says.
#[verifier::loop_isolation(false)]
pub fn parse_options(v: Value) -> (r: Result<RequestOptions, OptionsError>)
    ensures
        match r {
            Ok(o) => options_of_value(v@) == Ok::<OptView, OptErrView>(o@),
            Err(e) => options_of_value(v@) == Err::<OptView, OptErrView>(e@),
        },
{
    let ghost vv = v@;
    let mut pairs = (match v {
        Value::Arr(pairs) => pairs,
        _ => {
            return Err(OptionsError::NotAMap);
        },
    });
    let ghost pv = pairs_view_of(pairs@);
    let mut acc = default_request_options();
    let ghost mut i: int = 0;
    proof {
        assert(vv == ValView::Arr(pv));
        lemma_pairs_view_of(pairs@);
        assert(pv.skip(0) =~= pv);
    }
    while pairs.len() > 0
        invariant
            0 <= i <= pv.len(),
            vv == ValView::Arr(pv),
            pairs_view_of(pairs@) == pv.skip(i),
            pairs@.len() == pv.len() - i,
            parse_options_from(pv, 0, default_options()) == parse_options_from(pv, i, acc@),
        decreases pairs.len(),
    {
        let ghost pairs0 = pairs@;
        proof {
            lemma_pairs_view_of(pairs0);
        }
        let pair = pairs.remove(0);
        proof {
            assert(pairs_view_of(pairs0)[0] == (pairs0[0].0@, pairs0[0].1@));
            assert(pv.skip(i)[0] == pv[i]);
            assert((pair.0@, pair.1@) == pv[i]);
            lemma_pairs_view_of(pairs@);
            assert(pairs@ =~= pairs0.subrange(1, pairs0.len() as int));
            assert(pairs_view_of(pairs@) =~= pv.skip(i + 1)) by {
                assert forall|j: int|
                    0 <= j < pairs@.len() implies #[trigger] pairs_view_of(pairs@)[j] == pv.skip(
                    i + 1,
                )[j] by {
                    assert(pairs@[j] == pairs0[j + 1]);
                    assert(pairs_view_of(pairs@)[j] == (pairs@[j].0@, pairs@[j].1@));
                    assert(pairs_view_of(pairs0)[j + 1] == (pairs0[j + 1].0@, pairs0[j + 1].1@));
                    assert(pv.skip(i)[j + 1] == pv[i + 1 + j]);
                }
            }
        }
        let ghost acc0 = acc@;
        match apply_option_exec(acc, pair.0, pair.1) {
            Ok(a2) => {
                proof {
                    assert(parse_options_from(pv, i, acc0) == parse_options_from(pv, i + 1, a2@));
                }
                acc = a2;
            },
            Err(e) => {
                proof {
                    assert(apply_option(acc0, pv[i].0, pv[i].1) == Err::<OptView, OptErrView>(e@));
                    assert(parse_options_from(pv, i, acc0) == Err::<OptView, OptErrView>(e@));
                    assert(options_of_value(vv) == Err::<OptView, OptErrView>(e@));
                }
                return Err(e);
            },
        }
        proof {
            i = i + 1;
        }
    }
    proof {
        assert(pv.skip(i).len() == 0);
        assert(i == pv.len());
    }
    Ok(acc)
}

} // verus!
