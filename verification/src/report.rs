//! Composing the failure-time report around a rendered chain.
//!
//! The host program decides where the report goes (a diagnostic stream, at
//! failure time); this module decides what the report says: a header line
//! followed by the rendered chain, or nothing at all when the chain is
//! empty, so that an empty stack never produces output.

use vstd::prelude::*;
use vstd::string::StringExecFns;

verus! {

/// The full report text for a rendered context chain: the header line, the
/// chain, and a closing newline. `None` exactly when the chain is empty, so
/// nothing is printed for an empty stack.
pub fn report(context: &str) -> (out: Option<String>)
    ensures
        context@.len() == 0 <==> out is None,
        context@.len() > 0 ==> (out matches Some(s) && s@ == "ERROR CONTEXT:\n"@ + context@
            + "\n"@),
{
    if context.is_empty() {
        None
    } else {
        let mut s = "ERROR CONTEXT:\n".to_owned();
        s.append(context);
        s.append("\n");
        proof {
            assert(s@ =~= "ERROR CONTEXT:\n"@ + context@ + "\n"@);
        }
        Some(s)
    }
}

} // verus!
