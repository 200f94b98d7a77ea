//! The decision logic of the external-process capability.  Spawning and
//! waiting are host work; the rules — which script values become
//! arguments, and what the waited status means — stand here.

use vstd::prelude::*;

verus! {

use crate::ctx::{Ctx, spec_set_error};
use crate::value::{Value, ValView, vals_view, lemma_vals_view};
use crate::SoftFail;
broadcast use vstd::seq::group_seq_axioms, vstd::std_specs::vec::group_vec_axioms;

/// Character-sequence view of a list of strings.
pub open spec fn strs_view(s: Seq<String>) -> Seq<Seq<char>> {
    Seq::new(s.len(), |i: int| s[i]@)
}

/// The text arguments of a process invocation: the text values in order;
/// a value of any other kind is silently dropped, as the catalog has it.
pub open spec fn text_args(s: Seq<ValView>) -> Seq<Seq<char>>
    decreases s.len(),
{
    if s.len() == 0 {
        Seq::empty()
    } else {
        let rest = text_args(s.drop_last());
        match s.last() {
            ValView::Str(t) => rest.push(t),
            _ => rest,
        }
    }
}

/// Extracts the program arguments from the script list, exactly as
/// [`text_args`] says.
#[verifier::loop_isolation(false)]
pub fn execve_args(args: &Vec<Value>) -> (r: Vec<String>)
    ensures
        strs_view(r@) == text_args(vals_view(args@)),
{
    let ghost av = vals_view(args@);
    proof {
        lemma_vals_view(args@);
    }
    let mut out: Vec<String> = Vec::new();
    let mut i: usize = 0;
    proof {
        assert(strs_view(out@) =~= text_args(av.take(0)));
    }
    while i < args.len()
        invariant
            i <= args.len(),
            strs_view(out@) == text_args(av.take(i as int)),
        decreases args.len() - i,
    {
        proof {
            assert(av[i as int] == args@[i as int]@);
        }
        match &args[i] {
            Value::Str(t) => {
                out.push(t.clone());
            },
            _ => {
            },
        }
        proof {
            assert(av.take(i + 1).drop_last() =~= av.take(i as int));
            assert(av.take(i + 1).last() == av[i as int]);
            assert(strs_view(out@) =~= text_args(av.take(i + 1)));
        }
        i += 1;
    }
    proof {
        assert(av.take(av.len() as int) =~= av);
    }
    out
}

/// Diagnostic written when the process exits without a code (ended by a
/// signal).
pub open spec fn no_exit_code_msg() -> Seq<char> {
    "process didn't return exit code"@
}

/// Maps the waited process status to the capability outcome: an exit
/// code is handed through (a non-zero code is not a failure); an exit
/// without a code is an operational failure.
pub fn execve_outcome(ctx: &mut Ctx, status: Option<i32>) -> (r: Result<i32, SoftFail>)
    ensures
        match r {
            Ok(code) => status == Some(code) && final(ctx)@ == old(ctx)@,
            Err(_) => status is None && final(ctx)@ == spec_set_error(
                old(ctx)@,
                no_exit_code_msg(),
            ),
        },
{
    match status {
        Some(code) => Ok(code),
        None => Err(ctx.set_error("process didn't return exit code".to_owned())),
    }
}

} // verus!
