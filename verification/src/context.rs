//! The per-thread context stack and its frames.
//!
//! A [`DataScope`] captures one instrumentation point: a source location, a
//! message, and a payload. A [`ContextStack`] is the per-thread arena of
//! frame records. Entering a scope pushes a record built from a `DataScope`
//! and returns the depth saved at entry; exiting truncates the stack back to
//! that saved depth, restoring exactly the state captured on entry whatever
//! frames were pushed in between. Rendering walks the records from the most
//! recent down, one formatted line per frame.

use vstd::prelude::*;
use vstd::string::StringExecFns;
use crate::payload::Entry;
use crate::text::dec_rep;
use crate::text::dec_u64;

verus! {

/// The mathematical model of one frame: the location fields, the message,
/// and the payload's debug text.
pub struct FrameView {
    pub module: Seq<char>,
    pub file: Seq<char>,
    pub line: u32,
    pub message: Seq<char>,
    pub payload: Seq<char>,
}

/// What is put in a stack frame: one recorded context point. The location
/// fields and the message are compile-time-known strings and a line number;
/// the payload is any value with the [`Entry`] rendering capability.
pub struct DataScope<Data> {
    pub module: &'static str,
    pub file: &'static str,
    pub line: u32,
    pub message: &'static str,
    pub data: Data,
}

impl<Data: Entry> DataScope<Data> {
    /// The frame this scope records, as a model value.
    pub open spec fn frame_view(&self) -> FrameView {
        FrameView {
            module: self.module@,
            file: self.file@,
            line: self.line,
            message: self.message@,
            payload: self.data.debug_view(),
        }
    }

    /// Captures one context point. Pure data capture: no failure mode.
    pub fn new(
        module: &'static str,
        file: &'static str,
        line: u32,
        message: &'static str,
        data: Data,
    ) -> (scope: Self)
        ensures
            scope.module@ == module@,
            scope.file@ == file@,
            scope.line == line,
            scope.message@ == message@,
            scope.data == data,
    {
        DataScope { module, file, line, message, data }
    }
}

/// One stored frame record: the scope's fields with the payload already
/// rendered to its debug text.
pub struct FrameRecord {
    pub module: String,
    pub file: String,
    pub line: u32,
    pub message: String,
    pub payload: String,
}

impl View for FrameRecord {
    type V = FrameView;

    open spec fn view(&self) -> FrameView {
        FrameView {
            module: self.module@,
            file: self.file@,
            line: self.line,
            message: self.message@,
            payload: self.payload@,
        }
    }
}

/// The one formatted line of a frame:
/// two spaces, the module path, the file and line, the message, and the
/// payload's debug text, with a trailing newline.
pub open spec fn frame_line(f: FrameView) -> Seq<char> {
    "  "@ + f.module + " "@ + f.file + ":"@ + dec_rep(f.line as nat) + ": "@ + f.message
        + " "@ + f.payload + "\n"@
}

/// The rendering of a whole stack: the most recently pushed frame's line
/// first, the oldest frame's line last; empty text for an empty stack.
pub open spec fn render_spec(s: Seq<FrameView>) -> Seq<char>
    decreases s.len(),
{
    if s.len() == 0 {
        Seq::empty()
    } else {
        frame_line(s.last()) + render_spec(s.drop_last())
    }
}

/// Entering a scope pushes its frame on the stack.
pub open spec fn enter_spec(s: Seq<FrameView>, f: FrameView) -> Seq<FrameView> {
    s.push(f)
}

/// Exiting a scope restores the snapshot saved at entry: every frame pushed
/// at or above the saved depth is removed. A saved depth beyond the current
/// length leaves the stack unchanged.
pub open spec fn exit_spec(s: Seq<FrameView>, saved: nat) -> Seq<FrameView> {
    if saved <= s.len() {
        s.take(saved as int)
    } else {
        s
    }
}

/// The per-thread context stack: a growable arena of frame records. Each
/// thread owns one independent stack; nothing here is shared across threads.
pub struct ContextStack {
    frames: Vec<FrameRecord>,
}

impl View for ContextStack {
    type V = Seq<FrameView>;

    closed spec fn view(&self) -> Seq<FrameView> {
        self.frames@.map_values(|r: FrameRecord| r@)
    }
}

/// Builds the formatted line of one frame record.
fn build_line(rec: &FrameRecord) -> (line: String)
    ensures
        line@ == frame_line(rec@),
{
    let mut line = "  ".to_owned();
    line.append(rec.module.as_str());
    line.append(" ");
    line.append(rec.file.as_str());
    line.append(":");
    let digits = dec_u64(rec.line as u64);
    line.append(digits.as_str());
    line.append(": ");
    line.append(rec.message.as_str());
    line.append(" ");
    line.append(rec.payload.as_str());
    line.append("\n");
    proof {
        assert(line@ =~= frame_line(rec@));
    }
    line
}

impl ContextStack {
    /// A new, empty stack.
    pub fn new() -> (s: ContextStack)
        ensures
            s@ == Seq::<FrameView>::empty(),
    {
        let s = ContextStack { frames: Vec::new() };
        proof {
            assert(s@ =~= Seq::<FrameView>::empty());
        }
        s
    }

    /// The number of active frames.
    pub fn depth(&self) -> (n: usize)
        ensures
            n == self@.len(),
    {
        self.frames.len()
    }

    /// Enters a scope: pushes the frame recorded by `scope` (rendering its
    /// payload now) and returns the depth saved at entry, to be handed back
    /// to [`ContextStack::exit`] when the scope ends.
    pub fn enter<Data: Entry>(&mut self, scope: &DataScope<Data>) -> (saved: usize)
        ensures
            final(self)@ == enter_spec(old(self)@, scope.frame_view()),
            saved == old(self)@.len(),
    {
        let saved = self.frames.len();
        let mut payload = String::new();
        scope.data.write(&mut payload);
        let rec = FrameRecord {
            module: scope.module.to_owned(),
            file: scope.file.to_owned(),
            line: scope.line,
            message: scope.message.to_owned(),
            payload,
        };
        self.frames.push(rec);
        proof {
            assert(self@ =~= old(self)@.push(scope.frame_view()));
        }
        saved
    }

    /// Exits a scope: restores the snapshot saved at entry by truncating the
    /// stack back to the saved depth. Robust to any exit path and nesting
    /// depth: it restores the snapshot rather than popping one frame.
    pub fn exit(&mut self, saved: usize)
        ensures
            final(self)@ == exit_spec(old(self)@, saved as nat),
    {
        self.frames.truncate(saved);
        proof {
            if saved <= old(self).frames.len() {
                assert(self@ =~= old(self)@.take(saved as int));
            } else {
                assert(self@ =~= old(self)@);
            }
        }
    }

    /// Renders the active chain, innermost (most recently pushed) frame
    /// first, as one line per frame. Returns empty text for an empty stack.
    /// The walk is iterative, so an arbitrarily long chain cannot overflow
    /// the renderer's own call stack.
    pub fn render(&self) -> (out: String)
        ensures
            out@ == render_spec(self@),
            self@.len() == 0 ==> out@ == Seq::<char>::empty(),
    {
        let mut out = String::new();
        let mut j: usize = self.frames.len();
        proof {
            assert(self@.take(j as int) =~= self@);
            assert(out@ + render_spec(self@) =~= render_spec(self@));
        }
        while j > 0
            invariant
                j <= self.frames.len(),
                self@.len() == self.frames@.len(),
                render_spec(self@) == out@ + render_spec(self@.take(j as int)),
            decreases j,
        {
            j = j - 1;
            let ghost prev_out = out@;
            let line = build_line(&self.frames[j]);
            out.append(line.as_str());
            proof {
                let pre = self@.take(j + 1);
                assert(pre.drop_last() =~= self@.take(j as int));
                assert(pre.last() == self@[j as int]);
                assert(render_spec(pre) == frame_line(self@[j as int]) + render_spec(
                    self@.take(j as int),
                ));
                assert(out@ + render_spec(self@.take(j as int)) =~= prev_out + render_spec(pre));
            }
        }
        proof {
            assert(self@.take(0) =~= Seq::<FrameView>::empty());
            assert(out@ + render_spec(self@.take(0)) =~= out@);
        }
        out
    }
}

} // verus!
