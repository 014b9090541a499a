//! The place where the most recent error message is kept.

use vstd::prelude::*;

verus! {

/// The text that is kept for the message `msg`: the message itself, unless a
/// NUL in it would cut it short for a C caller.
pub open spec fn error_text(msg: Seq<char>) -> Seq<char> {
    if msg.contains('\0') {
        "error message contained NUL byte"@
    } else {
        msg
    }
}

/// Holds the most recent error message, which never contains a NUL.
pub struct ErrorSlot {
    message: Option<String>,
}

impl ErrorSlot {
    /// The message, if there is one.
    pub closed spec fn view(&self) -> Option<Seq<char>> {
        match self.message {
            Some(text) => Some(text@),
            None => None,
        }
    }

    #[verifier::type_invariant]
    spec fn no_nul(&self) -> bool {
        self@ matches Some(text) ==> !text.contains('\0')
    }

    /// A slot without a message.
    pub fn empty() -> (slot: ErrorSlot)
        ensures
            slot@ is None,
    {
        ErrorSlot { message: None }
    }

    /// The message, if there is one; it contains no NUL.
    pub fn message(&self) -> (text: Option<&str>)
        ensures
            text is Some <==> self@ is Some,
            text matches Some(t) ==> self@ == Some(t@) && !t@.contains('\0'),
    {
        proof {
            use_type_invariant(self);
        }
        match &self.message {
            Some(text) => Some(text.as_str()),
            None => None,
        }
    }
}

fn contains_nul(text: &str) -> (found: bool)
    ensures
        found == text@.contains('\0'),
{
    for c in iter: text.chars()
        invariant
            iter.seq() == text@,
            forall|i: int| 0 <= i < iter.index() ==> text@[i] != '\0',
    {
        if c == '\0' {
            assert(text@[iter.index() as int] == '\0');
            return true;
        }
    }
    false
}

/// Keeps `msg` as the most recent error.
pub fn set_err(slot: &mut ErrorSlot, msg: String)
    ensures
        final(slot)@ == Some(error_text(msg@)),
{
    let text = if contains_nul(msg.as_str()) {
        "error message contained NUL byte".to_owned()
    } else {
        msg
    };
    proof {
        reveal_strlit("error message contained NUL byte");
    }
    *slot = ErrorSlot { message: Some(text) };
}

} // verus!
