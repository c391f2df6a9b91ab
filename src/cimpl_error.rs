//! An error held as one message, "Variant: details", ready for other languages.
//!
//! Bindings split the message at its first ": " to learn the variant name,
//! from which they build a typed exception, and the human-readable details.

use vstd::prelude::*;

use crate::digits::decimal;
use crate::digits::hex;
use crate::digits::push_decimal;
use crate::digits::push_hex;
use crate::last_error::LastError;
use crate::text::find_sep;
use crate::text::first_sep;
use crate::text::head;
use crate::text::head_len;
use crate::text::trim;
use crate::text::trimmed;

verus! {

/// Relies on the value's `Debug` implementation, through `format!("{:?}")`.
#[verifier::external_body]
fn debug_text<E: core::fmt::Debug>(e: &E) -> String {
    format!("{:?}", e)
}

/// The variant name that a `Debug` rendering shows: what comes before its
/// first '(' or '{', trimmed; "Unknown" when that is empty.
pub open spec fn variant_of_debug(debug: Seq<char>) -> Seq<char> {
    let name = trimmed(debug.subrange(0, head_len(debug)));
    if name.len() == 0 {
        "Unknown"@
    } else {
        name
    }
}

/// An error as the text "Variant: details".
#[derive(Debug, Clone)]
pub struct Error {
    message: String,
}

impl View for Error {
    type V = Seq<char>;

    closed spec fn view(&self) -> Seq<char> {
        self.message@
    }
}

impl Error {
    /// The error whose message is `variant`, ": ", then `message`.
    pub fn new(variant: &str, message: &str) -> (r: Error)
        ensures
            r@ == variant@ + ": "@ + message@,
    {
        let mut m = String::from_str(variant);
        m.append(": ");
        m.append(message);
        Error { message: m }
    }

    /// The error for a value whose `Debug` rendering is `debug` and whose
    /// display text is `display`: the variant is read from `debug` (see
    /// `variant_of_debug`), the details are `display`.
    pub fn from_texts(debug: &str, display: &str) -> (r: Error)
        ensures
            r@ == variant_of_debug(debug@) + ": "@ + display@,
    {
        let name = trim(head(debug));
        if name.unicode_len() == 0 {
            proof { reveal_strlit("Unknown"); }
            Error::new("Unknown", display)
        } else {
            Error::new(name, display)
        }
    }

    /// Converts any error: the variant name is read from its `Debug`
    /// rendering, as a derived `Debug` shows it ("Variant", "Variant(..)",
    /// "Variant { .. }"), and the details are its display text.
    pub fn from_error<E: core::fmt::Debug + core::fmt::Display>(e: E) -> (r: Error)
        ensures
            exists|debug: Seq<char>, display: String|
                {
                    &&& #[trigger] vstd::string::to_string_from_display_ensures::<E>(&e, display)
                    &&& r@ == #[trigger] variant_of_debug(debug) + ": "@ + display@
                },
    {
        let debug = debug_text(&e);
        let display = e.to_string();
        Error::from_texts(debug.as_str(), display.as_str())
    }

    /// The whole message.
    pub fn message(&self) -> (r: &str)
        ensures
            r@ == self@,
    {
        self.message.as_str()
    }

    /// The message, as the error displays itself.
    pub fn to_string(&self) -> (r: String)
        ensures
            r@ == self@,
    {
        self.message.clone()
    }

    /// What comes before the first ": " of the message, if it has one.
    pub fn variant(&self) -> (r: Option<&str>)
        ensures
            match first_sep(self@) {
                Some(i) => r matches Some(v) && v@ == self@.subrange(0, i),
                None => r is None,
            },
    {
        let s = self.message.as_str();
        match find_sep(s) {
            Some(i) => Some(s.substring_char(0, i)),
            None => None,
        }
    }

    /// What comes after the first ": " of the message, if it has one.
    pub fn details(&self) -> (r: Option<&str>)
        ensures
            match first_sep(self@) {
                Some(i) => r matches Some(d) && d@ == self@.subrange(i + 2, self@.len() as int),
                None => r is None,
            },
    {
        let s = self.message.as_str();
        match find_sep(s) {
            Some(i) => {
                let n = s.unicode_len();
                Some(s.substring_char(i + 2, n))
            },
            None => None,
        }
    }

    /// A required parameter, named `param`, was null.
    pub fn null_parameter(param: &str) -> (r: Error)
        ensures
            r@ == "NullParameter: "@ + param@,
    {
        proof { reveal_strlit("NullParameter"); reveal_strlit("NullParameter: "); reveal_strlit(": "); }
        Error::new("NullParameter", param)
    }

    /// The string parameter `param` is too long.
    pub fn string_too_long(param: &str) -> (r: Error)
        ensures
            r@ == "StringTooLong: "@ + param@,
    {
        proof { reveal_strlit("StringTooLong"); reveal_strlit("StringTooLong: "); reveal_strlit(": "); }
        Error::new("StringTooLong", param)
    }

    /// The address `ptr` is not tracked; shown in hexadecimal.
    pub fn untracked_pointer(ptr: u64) -> (r: Error)
        ensures
            r@ == "UntrackedPointer: 0x"@ + hex(ptr as nat),
    {
        let mut m = String::from_str("UntrackedPointer: 0x");
        push_hex(&mut m, ptr as u128);
        Error { message: m }
    }

    /// The address `ptr` is tracked as another type; shown in hexadecimal.
    pub fn wrong_pointer_type(ptr: u64) -> (r: Error)
        ensures
            r@ == "WrongPointerType: 0x"@ + hex(ptr as nat),
    {
        let mut m = String::from_str("WrongPointerType: 0x");
        push_hex(&mut m, ptr as u128);
        Error { message: m }
    }

    /// A lock was poisoned by a thread that panicked while holding it.
    pub fn mutex_poisoned() -> (r: Error)
        ensures
            r@ == "MutexPoisoned: thread panic detected"@,
    {
        proof {
            reveal_strlit("MutexPoisoned");
            reveal_strlit("thread panic detected");
            reveal_strlit(": ");
            reveal_strlit("MutexPoisoned: thread panic detected");
        }
        Error::new("MutexPoisoned", "thread panic detected")
    }

    /// The buffer `param` was given the unusable size `size`.
    pub fn invalid_buffer_size(size: usize, param: &str) -> (r: Error)
        ensures
            r@ == "InvalidBufferSize: "@ + decimal(size as nat) + " for '"@ + param@ + "'"@,
    {
        let mut m = String::from_str("InvalidBufferSize: ");
        push_decimal(&mut m, size as u128);
        m.append(" for '");
        m.append(param);
        m.append("'");
        Error { message: m }
    }

    /// Any other failure, described by `msg`.
    pub fn other(msg: &str) -> (r: Error)
        ensures
            r@ == "Other: "@ + msg@,
    {
        proof { reveal_strlit("Other"); reveal_strlit("Other: "); reveal_strlit(": "); }
        Error::new("Other", msg)
    }

    /// The message of the error in `slot`, if there is one.
    pub fn last_message(slot: &LastError<Error>) -> (r: Option<String>)
        ensures
            match r {
                Some(m) => slot@ matches Some(e) && m@ == e@,
                None => slot@ is None,
            },
    {
        match slot.peek() {
            Some(e) => Some(e.message.clone()),
            None => None,
        }
    }

    /// Makes this error the last one of `slot`.
    pub fn set_last(self, slot: &mut LastError<Error>)
        ensures
            final(slot)@ == Some(self),
    {
        slot.set(self);
    }

    /// Takes the last error out of `slot`, leaving it empty.
    pub fn take_last(slot: &mut LastError<Error>) -> (r: Option<Error>)
        ensures
            r == old(slot)@,
            final(slot)@ is None,
    {
        slot.take()
    }
}

} // verus!
