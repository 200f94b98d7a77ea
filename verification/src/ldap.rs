//! The decision logic of the directory-service capabilities.  The wire
//! protocol is an external collaborator: host code connects, binds and
//! searches, and hands each outcome back as an event; the step functions
//! here decide what happens next and own every rule of the procedure,
//! including the error-channel writes.

use vstd::prelude::*;

verus! {

use crate::ctx::{Ctx, spec_set_error};
use crate::SoftFail;
use vstd::string::StringExecFns;

/// What the host is asked to do next.
pub enum LdapAction {
    /// Connect to the directory server at the URL.
    Connect(String),
    /// Bind as the distinguished name with the password.
    Bind(String, String),
    /// Search the base DN, subtree scope, with the equality filter.
    Search(String, String),
    /// Nothing: the procedure is over.
    Stop,
}

/// What the host hands back after performing an action.
pub enum LdapEvent {
    /// Begin the procedure.
    Start,
    /// The connection attempt came back; the fault text if it failed.
    Connected(Option<String>),
    /// A bind came back: a fatal fault, or whether the server accepted
    /// the credentials.
    Bound(Result<bool, String>),
    /// The search came back: a fault, or the distinguished names of the
    /// matching entries in server order.
    Searched(Result<Vec<String>, String>),
}

/// The final outcome of a directory procedure.
#[derive(Clone, Copy, PartialEq, Eq, Structural, Debug)]
pub enum LdapOutcome {
    /// The final bind was accepted: the capability returns true.
    Accepted,
    /// The server answered and said no (credentials rejected, or no
    /// matching entry): the capability returns false.
    Rejected,
    /// An operational fault; the diagnostic stands in the error slot.
    Failed,
}

/// Where the search-bind procedure stands.
#[derive(Clone, Copy, PartialEq, Eq, Structural, Debug)]
pub enum SearchBindState {
    /// Nothing done yet.
    Init,
    /// Waiting for the connection.
    Connecting,
    /// Waiting for the bind as the search user.
    BindingSearchUser,
    /// Waiting for the subtree search.
    Searching,
    /// Waiting for the bind as the first matching entry.
    BindingCandidate,
    /// Finished.
    Done(LdapOutcome),
}

/// Where the simple-bind procedure stands.
#[derive(Clone, Copy, PartialEq, Eq, Structural, Debug)]
pub enum SimpleBindState {
    /// Nothing done yet.
    Init,
    /// Waiting for the connection.
    Connecting,
    /// Waiting for the bind.
    Binding,
    /// Finished.
    Done(LdapOutcome),
}

/// The inputs of the search-bind procedure: bind as a privileged search
/// user, find the entry whose uid equals the user, then bind as that
/// entry's DN with the password.
pub struct SearchBindInputs {
    pub url: String,
    pub search_user: String,
    pub search_pw: String,
    pub base_dn: String,
    pub user: String,
    pub password: String,
}

/// What the RFC 4514 escaping of a DN attribute value is; a function of
/// the characters alone.
pub uninterp spec fn dn_escaped(s: Seq<char>) -> Seq<char>;

/// Relies on ldap3::dn_escape: RFC 4514 escaping of an attribute value
/// for use in a relative distinguished name, a function of the
/// characters alone.
#[verifier::external_body]
fn dn_escape_raw(s: &str) -> (r: String)
    ensures
        r@ == dn_escaped(s@),
{
    ldap3::dn_escape(s).to_string()
}

/// The escape capability: RFC 4514 escaping for DN attribute values.
pub fn ldap_escape(s: &str) -> (r: String)
    ensures
        r@ == dn_escaped(s@),
{
    dn_escape_raw(s)
}

/// The equality filter the search-bind procedure searches with.
pub open spec fn uid_filter(user: Seq<char>) -> Seq<char> {
    "uid="@ + dn_escaped(user)
}

/// Builds the search filter for a user, exactly as [`uid_filter`] says.
pub fn make_uid_filter(user: &str) -> (r: String)
    ensures
        r@ == uid_filter(user@),
{
    let mut out = "uid=".to_owned();
    let escaped = dn_escape_raw(user);
    out.append(escaped.as_str());
    out
}

/// Diagnostic written when the search user's credentials are rejected.
pub open spec fn search_user_rejected_msg() -> Seq<char> {
    "login with search user failed"@
}

/// Diagnostic written when an event does not belong to the current
/// phase of a procedure: a host-driver fault.
pub open spec fn protocol_msg() -> Seq<char> {
    "unexpected directory protocol event"@
}

/// One step of the search-bind procedure: from the current phase and the
/// event the host hands back, the next phase and the next action.
///
/// A connection or protocol fault, and rejected search-user credentials,
/// are operational failures: the diagnostic goes to the error slot and
/// the procedure ends `Failed`.  A search with zero matching entries
/// ends `Rejected` at once, with no further bind asked for and the error
/// slot untouched.  Otherwise the first entry's DN is bound with the
/// password, and its outcome decides between `Accepted` and `Rejected`.
pub fn search_bind_step(
    ctx: &mut Ctx,
    inputs: &SearchBindInputs,
    state: SearchBindState,
    event: LdapEvent,
) -> (r: (SearchBindState, LdapAction))
    ensures
        match (state, event) {
            (SearchBindState::Init, LdapEvent::Start) => {
                &&& r.0 == SearchBindState::Connecting
                &&& r.1 matches LdapAction::Connect(url) && url@ == inputs.url@
                &&& final(ctx)@ == old(ctx)@
            },
            (SearchBindState::Connecting, LdapEvent::Connected(None)) => {
                &&& r.0 == SearchBindState::BindingSearchUser
                &&& r.1 matches LdapAction::Bind(dn, pw) && dn@ == inputs.search_user@ && pw@
                    == inputs.search_pw@
                &&& final(ctx)@ == old(ctx)@
            },
            (SearchBindState::Connecting, LdapEvent::Connected(Some(fault))) => {
                &&& r.0 == SearchBindState::Done(LdapOutcome::Failed)
                &&& r.1 is Stop
                &&& final(ctx)@ == spec_set_error(old(ctx)@, fault@)
            },
            (SearchBindState::BindingSearchUser, LdapEvent::Bound(Ok(accepted))) => {
                &&& accepted ==> {
                    &&& r.0 == SearchBindState::Searching
                    &&& r.1 matches LdapAction::Search(base, filter) && base@ == inputs.base_dn@
                        && filter@ == uid_filter(inputs.user@)
                    &&& final(ctx)@ == old(ctx)@
                }
                &&& !accepted ==> {
                    &&& r.0 == SearchBindState::Done(LdapOutcome::Failed)
                    &&& r.1 is Stop
                    &&& final(ctx)@ == spec_set_error(old(ctx)@, search_user_rejected_msg())
                }
            },
            (SearchBindState::Searching, LdapEvent::Searched(Ok(dns))) => {
                &&& dns@.len() == 0 ==> {
                    &&& r.0 == SearchBindState::Done(LdapOutcome::Rejected)
                    &&& r.1 is Stop
                    &&& final(ctx)@ == old(ctx)@
                }
                &&& dns@.len() > 0 ==> {
                    &&& r.0 == SearchBindState::BindingCandidate
                    &&& r.1 matches LdapAction::Bind(dn, pw) && dn@ == dns@[0]@ && pw@
                        == inputs.password@
                    &&& final(ctx)@ == old(ctx)@
                }
            },
            (SearchBindState::BindingCandidate, LdapEvent::Bound(Ok(accepted))) => {
                &&& r.0 == SearchBindState::Done(
                    if accepted {
                        LdapOutcome::Accepted
                    } else {
                        LdapOutcome::Rejected
                    },
                )
                &&& r.1 is Stop
                &&& final(ctx)@ == old(ctx)@
            },
            (_, LdapEvent::Bound(Err(fault))) => {
                &&& r.0 == SearchBindState::Done(LdapOutcome::Failed)
                &&& r.1 is Stop
                &&& final(ctx)@ == spec_set_error(old(ctx)@, fault@)
            },
            (_, LdapEvent::Searched(Err(fault))) => {
                &&& r.0 == SearchBindState::Done(LdapOutcome::Failed)
                &&& r.1 is Stop
                &&& final(ctx)@ == spec_set_error(old(ctx)@, fault@)
            },
            _ => {
                &&& r.0 == SearchBindState::Done(LdapOutcome::Failed)
                &&& r.1 is Stop
                &&& final(ctx)@ == spec_set_error(old(ctx)@, protocol_msg())
            },
        },
{
    match (state, event) {
        (SearchBindState::Init, LdapEvent::Start) => (
            SearchBindState::Connecting,
            LdapAction::Connect(inputs.url.clone()),
        ),
        (SearchBindState::Connecting, LdapEvent::Connected(None)) => (
            SearchBindState::BindingSearchUser,
            LdapAction::Bind(inputs.search_user.clone(), inputs.search_pw.clone()),
        ),
        (SearchBindState::Connecting, LdapEvent::Connected(Some(fault))) => {
            let _ = ctx.set_error(fault);
            (SearchBindState::Done(LdapOutcome::Failed), LdapAction::Stop)
        },
        (SearchBindState::BindingSearchUser, LdapEvent::Bound(Ok(accepted))) => {
            if accepted {
                let filter = make_uid_filter(inputs.user.as_str());
                (
                    SearchBindState::Searching,
                    LdapAction::Search(inputs.base_dn.clone(), filter),
                )
            } else {
                let _ = ctx.set_error("login with search user failed".to_owned());
                (SearchBindState::Done(LdapOutcome::Failed), LdapAction::Stop)
            }
        },
        (SearchBindState::Searching, LdapEvent::Searched(Ok(dns))) => {
            if dns.len() == 0 {
                (SearchBindState::Done(LdapOutcome::Rejected), LdapAction::Stop)
            } else {
                let dn = dns[0].clone();
                (
                    SearchBindState::BindingCandidate,
                    LdapAction::Bind(dn, inputs.password.clone()),
                )
            }
        },
        (SearchBindState::BindingCandidate, LdapEvent::Bound(Ok(accepted))) => {
            let outcome = if accepted {
                LdapOutcome::Accepted
            } else {
                LdapOutcome::Rejected
            };
            (SearchBindState::Done(outcome), LdapAction::Stop)
        },
        (_, LdapEvent::Bound(Err(fault))) => {
            let _ = ctx.set_error(fault);
            (SearchBindState::Done(LdapOutcome::Failed), LdapAction::Stop)
        },
        (_, LdapEvent::Searched(Err(fault))) => {
            let _ = ctx.set_error(fault);
            (SearchBindState::Done(LdapOutcome::Failed), LdapAction::Stop)
        },
        _ => {
            let _ = ctx.set_error("unexpected directory protocol event".to_owned());
            (SearchBindState::Done(LdapOutcome::Failed), LdapAction::Stop)
        },
    }
}

/// One step of the simple-bind procedure: connect, bind once, report
/// whether the server accepted the credentials.  A connection or
/// protocol fault writes its diagnostic to the error slot and ends the
/// procedure `Failed`; a rejected bind is no fault and ends `Rejected`.
pub fn simple_bind_step(
    ctx: &mut Ctx,
    url: &String,
    dn: &String,
    password: &String,
    state: SimpleBindState,
    event: LdapEvent,
) -> (r: (SimpleBindState, LdapAction))
    ensures
        match (state, event) {
            (SimpleBindState::Init, LdapEvent::Start) => {
                &&& r.0 == SimpleBindState::Connecting
                &&& r.1 matches LdapAction::Connect(u) && u@ == url@
                &&& final(ctx)@ == old(ctx)@
            },
            (SimpleBindState::Connecting, LdapEvent::Connected(None)) => {
                &&& r.0 == SimpleBindState::Binding
                &&& r.1 matches LdapAction::Bind(d, p) && d@ == dn@ && p@ == password@
                &&& final(ctx)@ == old(ctx)@
            },
            (SimpleBindState::Connecting, LdapEvent::Connected(Some(fault))) => {
                &&& r.0 == SimpleBindState::Done(LdapOutcome::Failed)
                &&& r.1 is Stop
                &&& final(ctx)@ == spec_set_error(old(ctx)@, fault@)
            },
            (SimpleBindState::Binding, LdapEvent::Bound(Ok(accepted))) => {
                &&& r.0 == SimpleBindState::Done(
                    if accepted {
                        LdapOutcome::Accepted
                    } else {
                        LdapOutcome::Rejected
                    },
                )
                &&& r.1 is Stop
                &&& final(ctx)@ == old(ctx)@
            },
            (_, LdapEvent::Bound(Err(fault))) => {
                &&& r.0 == SimpleBindState::Done(LdapOutcome::Failed)
                &&& r.1 is Stop
                &&& final(ctx)@ == spec_set_error(old(ctx)@, fault@)
            },
            _ => {
                &&& r.0 == SimpleBindState::Done(LdapOutcome::Failed)
                &&& r.1 is Stop
                &&& final(ctx)@ == spec_set_error(old(ctx)@, protocol_msg())
            },
        },
{
    match (state, event) {
        (SimpleBindState::Init, LdapEvent::Start) => (
            SimpleBindState::Connecting,
            LdapAction::Connect(url.clone()),
        ),
        (SimpleBindState::Connecting, LdapEvent::Connected(None)) => (
            SimpleBindState::Binding,
            LdapAction::Bind(dn.clone(), password.clone()),
        ),
        (SimpleBindState::Connecting, LdapEvent::Connected(Some(fault))) => {
            let _ = ctx.set_error(fault);
            (SimpleBindState::Done(LdapOutcome::Failed), LdapAction::Stop)
        },
        (SimpleBindState::Binding, LdapEvent::Bound(Ok(accepted))) => {
            let outcome = if accepted {
                LdapOutcome::Accepted
            } else {
                LdapOutcome::Rejected
            };
            (SimpleBindState::Done(outcome), LdapAction::Stop)
        },
        (_, LdapEvent::Bound(Err(fault))) => {
            let _ = ctx.set_error(fault);
            (SimpleBindState::Done(LdapOutcome::Failed), LdapAction::Stop)
        },
        _ => {
            let _ = ctx.set_error("unexpected directory protocol event".to_owned());
            (SimpleBindState::Done(LdapOutcome::Failed), LdapAction::Stop)
        },
    }
}

} // verus!
