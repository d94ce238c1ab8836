//! The guarantees of the scope discipline, stated and proved over the model.
//!
//! The stack's operations are modelled by [`enter_spec`] and [`exit_spec`],
//! the very functions the executable contracts speak of, so what is proved
//! here holds of every run of the executable stack.

use vstd::prelude::*;
use crate::context::FrameView;
use crate::context::enter_spec;
use crate::context::exit_spec;
use crate::context::frame_line;
use crate::context::render_spec;

verus! {

/// A properly nested sequence of scope operations. `Scope(f, inner, rest)`
/// enters a scope recording `f`, runs `inner` within it, exits the scope
/// with the depth saved at entry, and then runs `rest` at the same level.
pub enum ScopeTrace {
    Done,
    Scope(FrameView, Box<ScopeTrace>, Box<ScopeTrace>),
}

/// The stack left by running a properly nested trace from stack `s`.
pub open spec fn run_trace(s: Seq<FrameView>, t: ScopeTrace) -> Seq<FrameView>
    decreases t,
{
    match t {
        ScopeTrace::Done => s,
        ScopeTrace::Scope(f, inner, rest) => {
            let entered = enter_spec(s, f);
            let after_inner = run_trace(entered, *inner);
            let restored = exit_spec(after_inner, s.len());
            run_trace(restored, *rest)
        },
    }
}

/// Exiting restores the snapshot saved at entry even when frames pushed
/// since are still present: as long as the stack still extends the saved
/// snapshot, the exit brings back exactly that snapshot.
pub proof fn lemma_exit_restores_snapshot(before: Seq<FrameView>, later: Seq<FrameView>)
    requires
        before.len() <= later.len(),
        later.take(before.len() as int) == before,
    ensures
        exit_spec(later, before.len()) == before,
{
}

/// Round trip: any properly nested sequence of scope enters and exits
/// returns the stack to exactly the state it started from; in particular,
/// after all scopes have exited, a stack that started empty is empty again.
pub proof fn lemma_nested_roundtrip(s: Seq<FrameView>, t: ScopeTrace)
    ensures
        run_trace(s, t) == s,
    decreases t,
{
    match t {
        ScopeTrace::Done => {},
        ScopeTrace::Scope(f, inner, rest) => {
            let entered = enter_spec(s, f);
            lemma_nested_roundtrip(entered, *inner);
            assert(exit_spec(entered, s.len()) =~= s);
            lemma_nested_roundtrip(s, *rest);
        },
    }
}

/// Rendering order is innermost-first: with scope `outer` entered and then
/// scope `inner` entered above it, `inner`'s line comes first, then
/// `outer`'s line, then the lines of whatever was below them.
pub proof fn lemma_render_innermost_first(s: Seq<FrameView>, outer: FrameView, inner: FrameView)
    ensures
        render_spec(enter_spec(enter_spec(s, outer), inner)) == frame_line(inner) + frame_line(
            outer,
        ) + render_spec(s),
{
    let s1 = enter_spec(s, outer);
    let s2 = enter_spec(s1, inner);
    assert(s2.drop_last() =~= s1);
    assert(s1.drop_last() =~= s);
    assert(s2.last() == inner);
    assert(s1.last() == outer);
    assert(render_spec(s2) == frame_line(inner) + render_spec(s1));
    assert(render_spec(s1) == frame_line(outer) + render_spec(s));
    assert(frame_line(inner) + (frame_line(outer) + render_spec(s)) =~= frame_line(inner)
        + frame_line(outer) + render_spec(s));
}

} // verus!
