//! The structured-document query capabilities.  The CSS selector engine
//! is an external collaborator, called in the `scraper` crate behind a
//! trusted wrapper; the bridge owns the marshalling of each matched
//! element into the script value model.

use vstd::prelude::*;

verus! {

use crate::ctx::{Ctx, spec_set_error};
use crate::value::{Value, ValView, pairs_view_of, lemma_pairs_view_of};
use crate::options::pairs_view;
use crate::SoftFail;

broadcast use vstd::seq::group_seq_axioms, vstd::std_specs::vec::group_vec_axioms;

/// One matched document element, as plain values: its attributes in
/// document order, its text content, and its own serialized markup.
pub struct Element {
    pub attrs: Vec<(String, String)>,
    pub text: String,
    pub html: String,
}

/// The mathematical shape of an [`Element`].
#[verifier::ext_equal]
pub struct ElemView {
    pub attrs: Seq<(Seq<char>, Seq<char>)>,
    pub text: Seq<char>,
    pub html: Seq<char>,
}

impl View for Element {
    type V = ElemView;

    open spec fn view(&self) -> ElemView {
        ElemView { attrs: pairs_view(self.attrs@), text: self.text@, html: self.html@ }
    }
}

/// Shapes of a list of elements, in order.
pub open spec fn elems_view(els: Seq<Element>) -> Seq<ElemView> {
    Seq::new(els.len(), |i: int| els[i]@)
}

/// What the selector engine matches in a document: a function of the
/// document text and the selector text alone, in document order; absent
/// exactly when the selector is invalid.
pub uninterp spec fn selection_of(html: Seq<char>, selector: Seq<char>) -> Option<Seq<ElemView>>;

/// Relies on scraper's Selector::parse, Html::parse_document and select,
/// with scraper's `deterministic` feature on (attributes are then kept
/// in insertion order, which is document order, rather than in a
/// per-process randomly seeded hash map): the matched elements, their
/// attribute lists and their serialized markup are a function of the
/// document and selector text alone, handed out in document order; an
/// invalid selector is the error.
#[verifier::external_body]
fn select_raw(html: &str, selector: &str) -> (r: Result<Vec<Element>, String>)
    ensures
        match r {
            Ok(els) => selection_of(html@, selector@) == Some(elems_view(els@)),
            Err(_) => selection_of(html@, selector@) is None,
        },
{
    let sel = (match scraper::Selector::parse(selector) {
        Ok(sel) => sel,
        Err(e) => {
            return Err(format!("{}", e));
        },
    });
    let doc = scraper::Html::parse_document(html);
    Ok(doc.select(&sel).map(|el| Element {
        attrs: el.value().attrs().map(|(k, v)| (k.to_string(), v.to_string())).collect(),
        text: el.text().collect(),
        html: el.html(),
    }).collect())
}

/// The shape of the script value one element marshals to: a map with
/// `attrs` (text pairs in order), `text` and `html`.
pub open spec fn element_view(e: ElemView) -> ValView {
    ValView::Arr(
        seq![
            (
                ValView::Str("attrs"@),
                ValView::Arr(
                    Seq::new(
                        e.attrs.len(),
                        |i: int| (ValView::Str(e.attrs[i].0), ValView::Str(e.attrs[i].1)),
                    ),
                ),
            ),
            (ValView::Str("text"@), ValView::Str(e.text)),
            (ValView::Str("html"@), ValView::Str(e.html)),
        ],
    )
}

/// Marshals one matched element into the script value model, exactly as
/// [`element_view`] says.
#[verifier::loop_isolation(false)]
pub fn element_value(e: Element) -> (r: Value)
    ensures
        r@ == element_view(e@),
{
    let ghost ev = e@;
    let attrs = e.attrs;
    let mut av: Vec<(Value, Value)> = Vec::new();
    let mut i: usize = 0;
    while i < attrs.len()
        invariant
            i <= attrs.len(),
            av@.len() == i,
            forall|j: int|
                0 <= j < i ==> (#[trigger] av@[j]).0@ == ValView::Str(attrs@[j].0@) && av@[j].1@
                    == ValView::Str(attrs@[j].1@),
        decreases attrs.len() - i,
    {
        let name = attrs[i].0.clone();
        let val = attrs[i].1.clone();
        av.push((Value::Str(name), Value::Str(val)));
        i += 1;
    }
    proof {
        lemma_pairs_view_of(av@);
        assert(pairs_view_of(av@) =~= Seq::new(
            ev.attrs.len(),
            |j: int| (ValView::Str(ev.attrs[j].0), ValView::Str(ev.attrs[j].1)),
        ));
    }
    let mut top: Vec<(Value, Value)> = Vec::new();
    top.push((Value::Str("attrs".to_owned()), Value::Arr(av)));
    top.push((Value::Str("text".to_owned()), Value::Str(e.text)));
    top.push((Value::Str("html".to_owned()), Value::Str(e.html)));
    let r = Value::Arr(top);
    proof {
        lemma_pairs_view_of(top@);
        let expected = (match element_view(ev) {
            ValView::Arr(s) => s,
            _ => arbitrary(),
        });
        assert(expected.len() == 3);
        assert(pairs_view_of(top@) =~= expected) by {
            assert(pairs_view_of(top@)[0] =~~= expected[0]);
            assert(pairs_view_of(top@)[1] =~~= expected[1]);
            assert(pairs_view_of(top@)[2] =~~= expected[2]);
        }
        assert(r@ == element_view(ev));
    }
    r
}

/// Diagnostic written when a selection matches nothing but one element
/// was asked for.
pub open spec fn no_match_msg() -> Seq<char> {
    "no element matched the selector"@
}

/// The single-selection capability: the first element the selector
/// matches, marshalled as [`element_view`] says.  An invalid selector,
/// or a selection with no match, is an operational failure recorded in
/// the error slot.
pub fn html_select(ctx: &mut Ctx, html: &str, selector: &str) -> (r: Result<Value, SoftFail>)
    ensures
        match r {
            Ok(v) => {
                &&& selection_of(html@, selector@) matches Some(els)
                &&& selection_of(html@, selector@)->Some_0.len() > 0
                &&& v@ == element_view(selection_of(html@, selector@)->Some_0[0])
                &&& final(ctx)@ == old(ctx)@
            },
            Err(_) => {
                &&& (selection_of(html@, selector@) is None || (selection_of(html@, selector@)
                    matches Some(els) && els.len() == 0))
                &&& final(ctx)@.error is Some
                &&& final(ctx)@ == spec_set_error(old(ctx)@, final(ctx)@.error->Some_0)
                &&& (selection_of(html@, selector@) is Some ==> final(ctx)@.error == Some(
                    no_match_msg(),
                ))
            },
        },
{
    let mut els = (match select_raw(html, selector) {
        Ok(els) => els,
        Err(message) => {
            return Err(ctx.set_error(message));
        },
    });
    if els.len() == 0 {
        return Err(ctx.set_error("no element matched the selector".to_owned()));
    }
    let ghost els0 = els@;
    let first = els.remove(0);
    proof {
        assert(first@ == elems_view(els0)[0]);
    }
    Ok(element_value(first))
}

/// The list-selection capability: every element the selector matches, in
/// document order, each marshalled as [`element_view`] says.  Only an
/// invalid selector is an operational failure.
#[verifier::loop_isolation(false)]
pub fn html_select_list(ctx: &mut Ctx, html: &str, selector: &str) -> (r: Result<
    Vec<Value>,
    SoftFail,
>)
    ensures
        match r {
            Ok(vs) => {
                &&& selection_of(html@, selector@) matches Some(els)
                &&& vs@.len() == selection_of(html@, selector@)->Some_0.len()
                &&& forall|i: int|
                    0 <= i < vs@.len() ==> (#[trigger] vs@[i])@ == element_view(
                        selection_of(html@, selector@)->Some_0[i],
                    )
                &&& final(ctx)@ == old(ctx)@
            },
            Err(_) => {
                &&& selection_of(html@, selector@) is None
                &&& final(ctx)@.error is Some
                &&& final(ctx)@ == spec_set_error(old(ctx)@, final(ctx)@.error->Some_0)
            },
        },
{
    let mut els = (match select_raw(html, selector) {
        Ok(els) => els,
        Err(message) => {
            return Err(ctx.set_error(message));
        },
    });
    let ghost evs = elems_view(els@);
    let mut out: Vec<Value> = Vec::new();
    let ghost mut taken: int = 0;
    while els.len() > 0
        invariant
            0 <= taken <= evs.len(),
            els@.len() == evs.len() - taken,
            forall|j: int| 0 <= j < els@.len() ==> #[trigger] els@[j]@ == evs[taken + j],
            out@.len() == taken,
            forall|i: int| 0 <= i < taken ==> (#[trigger] out@[i])@ == element_view(evs[i]),
        decreases els.len(),
    {
        let ghost els0 = els@;
        let e = els.remove(0);
        proof {
            assert(e@ == evs[taken]);
            let ghost t1 = taken + 1;
            assert forall|j: int| 0 <= j < els@.len() implies #[trigger] els@[j]@ == evs[t1 + j] by {
                assert(els@[j] == els0[j + 1]);
                assert(els0[j + 1]@ == evs[taken + (j + 1)]);
            }
        }
        let v = element_value(e);
        out.push(v);
        proof {
            taken = taken + 1;
        }
    }
    Ok(out)
}

} // verus!
