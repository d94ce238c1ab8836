//! The rendering capability of a frame's payload.
//!
//! A frame may carry a payload of any type, as long as that type can produce
//! a debug-style text representation of itself. Payloads of different types
//! can therefore appear in one chain: the chain is heterogeneous in payload
//! type but uniform in rendering capability.

use vstd::prelude::*;
use vstd::string::StringExecFns;
use crate::text::dec_rep;
use crate::text::dec_u64;

verus! {

/// The capability required of a payload carried by an entry in the context
/// stack: produce a debug-style text representation of the payload.
///
/// `debug_view` is the specification of that text; `write` appends exactly
/// that text to `writer`.
pub trait Entry {
    /// The debug text this payload renders as.
    spec fn debug_view(&self) -> Seq<char>;

    /// Appends the payload's debug text to `writer`.
    fn write(&self, writer: &mut String)
        ensures
            final(writer)@ == old(writer)@ + self.debug_view(),
    ;
}

/// The payload of a scope that carries no data: it renders as empty text.
pub struct EmptyDebug {}

impl Entry for EmptyDebug {
    open spec fn debug_view(&self) -> Seq<char> {
        Seq::empty()
    }

    fn write(&self, writer: &mut String) {
        proof {
            assert(writer@ + self.debug_view() =~= writer@);
        }
    }
}

/// A text payload. It renders wrapped in double quotes, the way a string
/// value appears in debug output.
pub struct TextPayload {
    pub text: String,
}

impl Entry for TextPayload {
    open spec fn debug_view(&self) -> Seq<char> {
        "\""@ + self.text@ + "\""@
    }

    fn write(&self, writer: &mut String) {
        writer.append("\"");
        writer.append(self.text.as_str());
        writer.append("\"");
        proof {
            assert(writer@ =~= old(writer)@ + self.debug_view());
        }
    }
}

/// An unsigned integer payload. It renders in decimal.
pub struct UintPayload {
    pub value: u64,
}

impl Entry for UintPayload {
    open spec fn debug_view(&self) -> Seq<char> {
        dec_rep(self.value as nat)
    }

    fn write(&self, writer: &mut String) {
        let digits = dec_u64(self.value);
        writer.append(digits.as_str());
    }
}

} // verus!
