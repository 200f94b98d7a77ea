//! Decisions around the network transport.  The transport itself is an
//! external collaborator driven by host code; what the bridge owns is
//! the authorization decision of the basic-auth probe and the shape of
//! the response map handed back to the script.

use vstd::prelude::*;

verus! {

use crate::options::pairs_view;
use crate::value::{Value, ValView, Num, pairs_view_of, lemma_pairs_view_of};
broadcast use vstd::seq::group_seq_axioms, vstd::std_specs::vec::group_vec_axioms;

/// The authorization decision of the basic-auth probe: authorized
/// exactly when the response carries no authentication challenge and its
/// status is not 401.
pub fn basic_auth_authorized(has_challenge: bool, status: u16) -> (r: bool)
    ensures
        r == (!has_challenge && status != 401),
{
    !has_challenge && status != 401
}

/// The shape of the response map of a sent request: `status` as a whole
/// number, `headers` as ordered text pairs with duplicate names kept in
/// order, and `body` as opaque bytes.
pub open spec fn response_view(
    status: u16,
    headers: Seq<(Seq<char>, Seq<char>)>,
    body: Seq<u8>,
) -> ValView {
    ValView::Arr(
        seq![
            (
                ValView::Str("status"@),
                ValView::Num(Num { trunc: status as i64, exact: true }),
            ),
            (
                ValView::Str("headers"@),
                ValView::Arr(
                    Seq::new(
                        headers.len(),
                        |i: int| (ValView::Str(headers[i].0), ValView::Str(headers[i].1)),
                    ),
                ),
            ),
            (ValView::Str("body"@), ValView::Bytes(body)),
        ],
    )
}

/// Builds the response map for a transport outcome, exactly as
/// [`response_view`] says.
#[verifier::loop_isolation(false)]
pub fn response_value(status: u16, headers: Vec<(String, String)>, body: Vec<u8>) -> (r: Value)
    ensures
        r@ == response_view(status, pairs_view(headers@), body@),
{
    let mut hv: Vec<(Value, Value)> = Vec::new();
    let mut i: usize = 0;
    while i < headers.len()
        invariant
            i <= headers.len(),
            hv@.len() == i,
            forall|j: int|
                0 <= j < i ==> (#[trigger] hv@[j]).0@ == ValView::Str(headers@[j].0@)
                    && hv@[j].1@ == ValView::Str(headers@[j].1@),
        decreases headers.len() - i,
    {
        let name = headers[i].0.clone();
        let val = headers[i].1.clone();
        hv.push((Value::Str(name), Value::Str(val)));
        i += 1;
    }
    let ghost hview = pairs_view_of(hv@);
    proof {
        lemma_pairs_view_of(hv@);
        assert(hview =~= Seq::new(
            pairs_view(headers@).len(),
            |j: int|
                (
                    ValView::Str(pairs_view(headers@)[j].0),
                    ValView::Str(pairs_view(headers@)[j].1),
                ),
        ));
    }
    let mut top: Vec<(Value, Value)> = Vec::new();
    top.push(
        (
            Value::Str("status".to_owned()),
            Value::Num(Num { trunc: status as i64, exact: true }),
        ),
    );
    top.push((Value::Str("headers".to_owned()), Value::Arr(hv)));
    top.push((Value::Str("body".to_owned()), Value::Bytes(body)));
    let r = Value::Arr(top);
    proof {
        lemma_pairs_view_of(top@);
        let expected = (match response_view(status, pairs_view(headers@), body@) {
            ValView::Arr(s) => s,
            _ => arbitrary(),
        });
        assert(expected.len() == 3);
        assert(pairs_view_of(top@) =~= expected) by {
            assert(pairs_view_of(top@)[0] =~~= expected[0]);
            assert(pairs_view_of(top@)[1] =~~= expected[1]);
            assert(pairs_view_of(top@)[2] =~~= expected[2]);
        }
        assert(r@ == response_view(status, pairs_view(headers@), body@));
    }
    r
}

} // verus!
