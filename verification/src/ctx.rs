//! The execution context: one script environment's error slot, session
//! store, pending-request store and token counter.
//!
//! Network requests follow a two-phase lifecycle: a build step validates
//! the session and options and stores a pending request under a fresh
//! opaque token, and a send step consumes the token exactly once; a
//! second send of the same token fails with the unknown-request error
//! instead of resending.

use vstd::prelude::*;

verus! {

use vstd::hash_map::StringHashMap;
use vstd::string::StringExecFns;
use crate::numtext::{dec_digits, push_decimal, lemma_dec_digits_injective};
use crate::options::{RequestOptions, OptView, options_of_value, parse_options};
use crate::value::{Value, ValView};
use crate::SoftFail;

broadcast use vstd::seq::group_seq_axioms, vstd::map::group_map_axioms;

/// Transport configuration owned by one session, fixed at allocation.
#[derive(Clone, Copy, PartialEq, Eq, Structural, Debug)]
pub struct Session {
    /// Whether the session's transport verifies TLS certificates when a
    /// request does not say otherwise.
    pub tls_verify: bool,
}

/// The default transport configuration of a fresh session.
pub open spec fn default_session() -> Session {
    Session { tls_verify: true }
}

/// A fully constructed, not-yet-sent network request, owned by the store
/// until the send capability consumes it.
#[derive(Debug)]
pub struct PendingRequest {
    /// Token of the owning session.
    pub session: String,
    /// Request method.
    pub method: String,
    /// Request URL.
    pub url: String,
    /// Validated options.
    pub options: RequestOptions,
}

/// The mathematical shape of a [`PendingRequest`].
#[verifier::ext_equal]
pub struct ReqView {
    pub session: Seq<char>,
    pub method: Seq<char>,
    pub url: Seq<char>,
    pub options: OptView,
}

impl View for PendingRequest {
    type V = ReqView;

    open spec fn view(&self) -> ReqView {
        ReqView {
            session: self.session@,
            method: self.method@,
            url: self.url@,
            options: self.options@,
        }
    }
}

impl Clone for PendingRequest {
    /// Clones the stored request, keeping its shape.
    fn clone(&self) -> (res: Self)
        ensures
            res@ == self@,
    {
        let res = PendingRequest {
            session: self.session.clone(),
            method: self.method.clone(),
            url: self.url.clone(),
            options: self.options.clone(),
        };
        proof {
            assert(res@ =~= self@);
        }
        res
    }
}

/// Text of the token the counter value `n` allocates, under a
/// one-character tag.
pub open spec fn token_text(tag: char, n: int) -> Seq<char> {
    seq![tag] + dec_digits(n)
}

/// Tokens under one tag never collide across counter values.
pub proof fn lemma_token_text_injective(tag: char, a: int, b: int)
    requires
        a >= 0,
        b >= 0,
        token_text(tag, a) == token_text(tag, b),
    ensures
        a == b,
{
    assert(dec_digits(a) =~= dec_digits(b)) by {
        assert(token_text(tag, a) == seq![tag] + dec_digits(a));
        assert(token_text(tag, b) == seq![tag] + dec_digits(b));
        assert((seq![tag] + dec_digits(a)).len() == 1 + dec_digits(a).len());
        assert((seq![tag] + dec_digits(b)).len() == 1 + dec_digits(b).len());
        assert(dec_digits(a).len() == dec_digits(b).len());
        assert forall|j: int| 0 <= j < dec_digits(a).len() implies dec_digits(a)[j] == dec_digits(
            b,
        )[j] by {
            assert((seq![tag] + dec_digits(a))[j + 1] == dec_digits(a)[j]);
            assert((seq![tag] + dec_digits(b))[j + 1] == dec_digits(b)[j]);
        }
    }
    lemma_dec_digits_injective(a, b);
}

/// Tokens under different tags never collide.
pub proof fn lemma_token_tags_distinct(t1: char, t2: char, a: int, b: int)
    requires
        t1 != t2,
    ensures
        token_text(t1, a) != token_text(t2, b),
{
    assert(token_text(t1, a)[0] == t1);
    assert(token_text(t2, b)[0] == t2);
}

/// Diagnostic written when a request names a session the store does not
/// know.
pub open spec fn unknown_session_msg() -> Seq<char> {
    "unknown session"@
}

/// Diagnostic written when the option map of a request is rejected.
pub open spec fn invalid_options_msg() -> Seq<char> {
    "invalid request options"@
}

/// Diagnostic written when a send names a request the store does not
/// know: the token was never built, or was already consumed.
pub open spec fn unknown_request_msg() -> Seq<char> {
    "unknown request"@
}

/// Builds the token for a counter value: the tag character (`s` for
/// sessions, `r` for requests) followed by the counter in decimal.
fn make_token(session_tag: bool, n: u64) -> (t: String)
    ensures
        t@ == token_text(if session_tag { 's' } else { 'r' }, n as int),
{
    let mut t = String::new();
    if session_tag {
        proof {
            reveal_strlit("s");
        }
        t.append("s");
    } else {
        proof {
            reveal_strlit("r");
        }
        t.append("r");
    }
    push_decimal(&mut t, n);
    proof {
        assert(t@ =~= token_text(if session_tag { 's' } else { 'r' }, n as int));
    }
    t
}

/// One script execution context: the error slot, the session store, the
/// pending-request store and the token counter.  Owned by exactly one
/// scripting environment; contexts share nothing.
pub struct Ctx {
    error: Option<String>,
    sessions: StringHashMap<Session>,
    requests: StringHashMap<PendingRequest>,
    next_token: u64,
}

/// The mathematical state of a context.
#[verifier::ext_equal]
pub struct CtxView {
    pub error: Option<Seq<char>>,
    pub sessions: Map<Seq<char>, Session>,
    pub requests: Map<Seq<char>, ReqView>,
    pub next_token: int,
}

impl View for Ctx {
    type V = CtxView;

    closed spec fn view(&self) -> CtxView {
        CtxView {
            error: match self.error {
                Some(m) => Some(m@),
                None => None,
            },
            sessions: self.sessions@,
            requests: self.requests@.map_values(|r: PendingRequest| r@),
            next_token: self.next_token as int,
        }
    }
}

/// The state transition of recording a failure: the slot holds the new
/// message, everything else stands.
pub open spec fn spec_set_error(c: CtxView, m: Seq<char>) -> CtxView {
    CtxView { error: Some(m), ..c }
}

/// The state transition and token of allocating a session.
pub open spec fn spec_mksession(c: CtxView) -> (CtxView, Seq<char>) {
    let token = token_text('s', c.next_token);
    (
        CtxView {
            sessions: c.sessions.insert(token, default_session()),
            next_token: c.next_token + 1,
            ..c
        },
        token,
    )
}

/// The state transition and outcome of consuming a pending request:
/// a known token is removed and its request handed out; an unknown one
/// writes the unknown-request diagnostic and changes the store not at
/// all.
pub open spec fn spec_send_take(c: CtxView, token: Seq<char>) -> (CtxView, Result<
    ReqView,
    Seq<char>,
>) {
    if c.requests.contains_key(token) {
        (CtxView { requests: c.requests.remove(token), ..c }, Ok(c.requests[token]))
    } else {
        (CtxView { error: Some(unknown_request_msg()), ..c }, Err(unknown_request_msg()))
    }
}

impl Ctx {
    /// Internal well-formedness: every stored token was allocated by the
    /// counter, under tag `s` for sessions and `r` for requests.
    pub closed spec fn wf(&self) -> bool {
        &&& forall|k: Seq<char>| #[trigger]
            self@.sessions.contains_key(k) ==> exists|n: int|
                0 <= n < self@.next_token && k == #[trigger] token_text('s', n)
        &&& forall|k: Seq<char>| #[trigger]
            self@.requests.contains_key(k) ==> exists|n: int|
                0 <= n < self@.next_token && k == #[trigger] token_text('r', n)
    }

    /// A fresh context: no error recorded, no sessions, no pending
    /// requests.
    pub fn new() -> (c: Ctx)
        ensures
            c.wf(),
            c@.error is None,
            c@.sessions == Map::<Seq<char>, Session>::empty(),
            c@.requests == Map::<Seq<char>, ReqView>::empty(),
            c@.next_token == 0,
    {
        let c = Ctx {
            error: None,
            sessions: StringHashMap::new(),
            requests: StringHashMap::new(),
            next_token: 0,
        };
        proof {
            assert(c@.requests =~= Map::<Seq<char>, ReqView>::empty());
        }
        c
    }

    /// Records an operational failure and hands back the soft-failure
    /// marker; an earlier message, if any, is overwritten.
    pub fn set_error(&mut self, message: String) -> (r: SoftFail)
        ensures
            final(self)@ == spec_set_error(old(self)@, message@),
            old(self).wf() ==> final(self).wf(),
    {
        self.error = Some(message);
        proof {
            assert(self@ =~= spec_set_error(old(self)@, message@));
        }
        SoftFail
    }

    /// Reads the most recently recorded failure without clearing it.
    pub fn last_err(&self) -> (r: Option<&String>)
        ensures
            match r {
                Some(m) => self@.error == Some(m@),
                None => self@.error is None,
            },
    {
        self.error.as_ref()
    }

    /// The error accessor of the catalog: the last failure as a script
    /// value, text when one was recorded and absence otherwise.
    pub fn last_err_value(&self) -> (r: Value)
        ensures
            match self@.error {
                Some(m) => r@ == ValView::Str(m),
                None => r@ == ValView::Nil,
            },
    {
        match self.last_err() {
            Some(m) => Value::Str(m.clone()),
            None => Value::Nil,
        }
    }

    /// Allocates a fresh session with the default transport
    /// configuration; always succeeds, and never reuses a live token.
    pub fn http_mksession(&mut self) -> (token: String)
        requires
            old(self).wf(),
            old(self)@.next_token < u64::MAX as int,
        ensures
            final(self).wf(),
            token@ == token_text('s', old(self)@.next_token),
            !old(self)@.sessions.contains_key(token@),
            final(self)@ == spec_mksession(old(self)@).0,
            token@ == spec_mksession(old(self)@).1,
    {
        let token = make_token(true, self.next_token);
        proof {
            let k = token@;
            if old(self)@.sessions.contains_key(k) {
                assert(exists|n: int|
                    0 <= n < old(self)@.next_token && k == #[trigger] token_text('s', n));
                let n = choose|n: int|
                    0 <= n < old(self)@.next_token && k == #[trigger] token_text('s', n);
                lemma_token_text_injective('s', n, old(self)@.next_token);
            }
        }
        let t2 = token.clone();
        self.sessions.insert(t2, Session { tls_verify: true });
        self.next_token = self.next_token + 1;
        proof {
            assert(self@ =~= spec_mksession(old(self)@).0);
            assert forall|k: Seq<char>| #[trigger] self@.sessions.contains_key(k) implies exists|
                n: int,
            | 0 <= n < self@.next_token && k == #[trigger] token_text('s', n) by {
                if k == token@ {
                    assert(0 <= old(self)@.next_token < self@.next_token && k == token_text(
                        's',
                        old(self)@.next_token,
                    ));
                } else {
                    assert(old(self)@.sessions.contains_key(k));
                    let n = choose|n: int|
                        0 <= n < old(self)@.next_token && k == #[trigger] token_text('s', n);
                    assert(0 <= n < self@.next_token && k == token_text('s', n));
                }
            }
            assert forall|k: Seq<char>| #[trigger] self@.requests.contains_key(k) implies exists|
                n: int,
            | 0 <= n < self@.next_token && k == #[trigger] token_text('r', n) by {
                assert(old(self)@.requests.contains_key(k));
                let n = choose|n: int|
                    0 <= n < old(self)@.next_token && k == #[trigger] token_text('r', n);
                assert(0 <= n < self@.next_token && k == token_text('r', n));
            }
        }
        token
    }

    /// The transport configuration of a live session, if the token
    /// names one.
    pub fn http_session(&self, token: &String) -> (r: Option<Session>)
        ensures
            match r {
                Some(s) => self@.sessions.contains_key(token@) && s == self@.sessions[token@],
                None => !self@.sessions.contains_key(token@),
            },
    {
        match self.sessions.get(token.as_str()) {
            Some(s) => Some(*s),
            None => None,
        }
    }

    /// Validates and stores a request: the session must exist and the
    /// option map must parse; the pending request is stored under a
    /// fresh token, distinct from every session token.  A missing
    /// session or a rejected option map is an operational failure:
    /// the diagnostic is written to the error slot and the soft-failure
    /// marker returned.
    pub fn http_request(
        &mut self,
        session: &String,
        method: String,
        url: String,
        options: Value,
    ) -> (r: Result<String, SoftFail>)
        requires
            old(self).wf(),
            old(self)@.next_token < u64::MAX as int,
        ensures
            final(self).wf(),
            final(self)@.sessions == old(self)@.sessions,
            match r {
                Ok(token) => {
                    &&& old(self)@.sessions.contains_key(session@)
                    &&& options_of_value(options@) is Ok
                    &&& token@ == token_text('r', old(self)@.next_token)
                    &&& !old(self)@.requests.contains_key(token@)
                    &&& token@ != session@
                    &&& final(self)@.requests == old(self)@.requests.insert(
                        token@,
                        ReqView {
                            session: session@,
                            method: method@,
                            url: url@,
                            options: options_of_value(options@)->Ok_0,
                        },
                    )
                    &&& final(self)@.error == old(self)@.error
                    &&& final(self)@.next_token == old(self)@.next_token + 1
                },
                Err(_) => {
                    &&& (!old(self)@.sessions.contains_key(session@) || options_of_value(options@)
                        is Err)
                    &&& final(self)@.requests == old(self)@.requests
                    &&& final(self)@.next_token == old(self)@.next_token
                    &&& final(self)@.error == Some(
                        if !old(self)@.sessions.contains_key(session@) {
                            unknown_session_msg()
                        } else {
                            invalid_options_msg()
                        },
                    )
                },
            },
    {
        if !self.sessions.contains_key(session.as_str()) {
            proof {
                reveal_strlit("unknown session");
            }
            return Err(self.set_error("unknown session".to_owned()));
        }
        let opts = (match parse_options(options) {
            Ok(o) => o,
            Err(_) => {
                proof {
                    reveal_strlit("invalid request options");
                }
                return Err(self.set_error("invalid request options".to_owned()));
            },
        });
        let token = make_token(false, self.next_token);
        proof {
            let k = token@;
            if old(self)@.requests.contains_key(k) {
                assert(exists|n: int|
                    0 <= n < old(self)@.next_token && k == #[trigger] token_text('r', n));
                let n = choose|n: int|
                    0 <= n < old(self)@.next_token && k == #[trigger] token_text('r', n);
                lemma_token_text_injective('r', n, old(self)@.next_token);
            }
            assert(old(self)@.sessions.contains_key(session@));
            assert(exists|n: int|
                0 <= n < old(self)@.next_token && session@ == #[trigger] token_text('s', n));
            let n = choose|n: int|
                0 <= n < old(self)@.next_token && session@ == #[trigger] token_text('s', n);
            lemma_token_tags_distinct('r', 's', old(self)@.next_token, n);
        }
        let req = PendingRequest { session: session.clone(), method, url, options: opts };
        let ghost rv = req@;
        let t2 = token.clone();
        self.requests.insert(t2, req);
        self.next_token = self.next_token + 1;
        proof {
            assert(self@.requests =~= old(self)@.requests.insert(token@, rv));
            assert forall|k: Seq<char>| #[trigger] self@.requests.contains_key(k) implies exists|
                n: int,
            | 0 <= n < self@.next_token && k == #[trigger] token_text('r', n) by {
                if k == token@ {
                    assert(0 <= old(self)@.next_token < self@.next_token && k == token_text(
                        'r',
                        old(self)@.next_token,
                    ));
                } else {
                    assert(old(self)@.requests.contains_key(k));
                    let n = choose|n: int|
                        0 <= n < old(self)@.next_token && k == #[trigger] token_text('r', n);
                    assert(0 <= n < self@.next_token && k == token_text('r', n));
                }
            }
            assert forall|k: Seq<char>| #[trigger] self@.sessions.contains_key(k) implies exists|
                n: int,
            | 0 <= n < self@.next_token && k == #[trigger] token_text('s', n) by {
                assert(old(self)@.sessions.contains_key(k));
                let n = choose|n: int|
                    0 <= n < old(self)@.next_token && k == #[trigger] token_text('s', n);
                assert(0 <= n < self@.next_token && k == token_text('s', n));
            }
        }
        Ok(token)
    }

    /// Consumes a pending request: removes it from the store, so a second
    /// send of the same token finds nothing, and hands the request out
    /// for the transport to perform.  An unknown token (never built, or
    /// already consumed) writes the unknown-request diagnostic.
    pub fn http_send_take(&mut self, token: &String) -> (r: Result<PendingRequest, SoftFail>)
        requires
            old(self).wf(),
        ensures
            final(self).wf(),
            final(self)@ == spec_send_take(old(self)@, token@).0,
            match r {
                Ok(req) => spec_send_take(old(self)@, token@).1 == Ok::<ReqView, Seq<char>>(req@),
                Err(_) => spec_send_take(old(self)@, token@).1 == Err::<ReqView, Seq<char>>(
                    unknown_request_msg(),
                ),
            },
    {
        let req = (match self.requests.get(token.as_str()) {
            Some(r) => r.clone(),
            None => {
                proof {
                    reveal_strlit("unknown request");
                }
                let r = self.set_error("unknown request".to_owned());
                proof {
                    assert(self@ =~= spec_send_take(old(self)@, token@).0);
                }
                return Err(r);
            },
        });
        self.requests.remove(token.as_str());
        proof {
            assert(self@.requests =~= old(self)@.requests.remove(token@));
            assert(self@ =~= spec_send_take(old(self)@, token@).0);
            assert forall|k: Seq<char>| #[trigger] self@.requests.contains_key(k) implies exists|
                n: int,
            | 0 <= n < self@.next_token && k == #[trigger] token_text('r', n) by {
                assert(old(self)@.requests.contains_key(k));
            }
        }
        Ok(req)
    }
}

/// Single consumption: a send consumes its token, and a second send of
/// the same token fails with the unknown-request diagnostic and leaves
/// the store as it was.
pub proof fn lemma_second_send_unknown(c: CtxView, token: Seq<char>)
    requires
        c.requests.contains_key(token),
    ensures
        ({
            let (c1, r1) = spec_send_take(c, token);
            let (c2, r2) = spec_send_take(c1, token);
            &&& r1 == Ok::<ReqView, Seq<char>>(c.requests[token])
            &&& r2 == Err::<ReqView, Seq<char>>(unknown_request_msg())
            &&& c2.requests == c1.requests
        }),
{
    broadcast use vstd::map::group_map_axioms;

}

/// No success clears the slot: after a failure is recorded, allocating a
/// session and successfully consuming a pending request leave the
/// recorded message exactly as the failing call wrote it.
pub proof fn lemma_failure_message_persists(c: CtxView, m: Seq<char>, token: Seq<char>)
    requires
        c.requests.contains_key(token),
    ensures
        ({
            let c1 = spec_set_error(c, m);
            let (c2, _) = spec_mksession(c1);
            let (c3, r) = spec_send_take(c2, token);
            &&& c1.error == Some(m)
            &&& c2.error == Some(m)
            &&& r is Ok
            &&& c3.error == Some(m)
        }),
{
    broadcast use vstd::map::group_map_axioms;

}

} // verus!
