//! The errors that core operations report to the boundary.

use vstd::prelude::*;
use vstd::string::to_string_from_display_ensures;

use crate::digits::decimal;
use crate::digits::push_decimal;
use crate::last_error::LastError;

verus! {

/// Integer codes for the boundary: 0 means no error, 1 to 99 are kept for
/// the core, 100 and above are free for libraries built on it.
#[derive(Debug, Clone, Copy, PartialEq, Eq, Structural)]
pub enum ErrorCode {
    /// No error occurred.
    NoError,
    /// A required parameter was null.
    NullParameter,
    /// A string exceeds the allowed length.
    StringTooLong,
    /// A handle is not tracked: never created, or already freed.
    InvalidHandle,
    /// A handle is tracked, but as another type.
    WrongHandleType,
    /// Any other failure.
    Other,
}

impl ErrorCode {
    pub open spec fn spec_as_i32(self) -> i32 {
        match self {
            ErrorCode::NoError => 0,
            ErrorCode::NullParameter => 1,
            ErrorCode::StringTooLong => 2,
            ErrorCode::InvalidHandle => 3,
            ErrorCode::WrongHandleType => 4,
            ErrorCode::Other => 5,
        }
    }

    /// The integer that the boundary reports for this code.
    #[verifier::when_used_as_spec(spec_as_i32)]
    pub fn as_i32(self) -> (r: i32)
        ensures
            r == self.spec_as_i32(),
    {
        match self {
            ErrorCode::NoError => 0,
            ErrorCode::NullParameter => 1,
            ErrorCode::StringTooLong => 2,
            ErrorCode::InvalidHandle => 3,
            ErrorCode::WrongHandleType => 4,
            ErrorCode::Other => 5,
        }
    }
}

/// A failure of a core operation, or of a library that reports through it.
#[derive(Debug)]
pub enum Error {
    /// The named parameter was null.
    NullParameter(String),
    /// The named string parameter is too long.
    StringTooLong(String),
    /// The address is not a live handle.
    InvalidHandle(u64),
    /// The address is a live handle of another type.
    WrongHandleType(u64),
    /// Any other failure, described.
    Other(String),
    /// A failure of a library built on the core: its code and full message.
    LibraryError(i32, String),
}

/// What an [`Error`] holds, with its texts as character sequences.
pub enum ErrorView {
    NullParameter(Seq<char>),
    StringTooLong(Seq<char>),
    InvalidHandle(u64),
    WrongHandleType(u64),
    Other(Seq<char>),
    LibraryError(i32, Seq<char>),
}

impl ErrorView {
    /// The integer code that the boundary reports.
    pub open spec fn code(self) -> i32 {
        match self {
            ErrorView::NullParameter(_) => ErrorCode::NullParameter.spec_as_i32(),
            ErrorView::StringTooLong(_) => ErrorCode::StringTooLong.spec_as_i32(),
            ErrorView::InvalidHandle(_) => ErrorCode::InvalidHandle.spec_as_i32(),
            ErrorView::WrongHandleType(_) => ErrorCode::WrongHandleType.spec_as_i32(),
            ErrorView::Other(_) => ErrorCode::Other.spec_as_i32(),
            ErrorView::LibraryError(code, _) => code,
        }
    }

    /// The message: the variant's name, ": ", then its detail; a library
    /// error's message is its own text.
    pub open spec fn message(self) -> Seq<char> {
        match self {
            ErrorView::NullParameter(s) => "NullParameter: "@ + s,
            ErrorView::StringTooLong(s) => "StringTooLong: "@ + s,
            ErrorView::InvalidHandle(h) => "InvalidHandle: "@ + decimal(h as nat),
            ErrorView::WrongHandleType(h) => "WrongHandleType: "@ + decimal(h as nat),
            ErrorView::Other(s) => "Other: "@ + s,
            ErrorView::LibraryError(_, s) => s,
        }
    }
}

impl View for Error {
    type V = ErrorView;

    open spec fn view(&self) -> ErrorView {
        match self {
            Error::NullParameter(s) => ErrorView::NullParameter(s@),
            Error::StringTooLong(s) => ErrorView::StringTooLong(s@),
            Error::InvalidHandle(h) => ErrorView::InvalidHandle(*h),
            Error::WrongHandleType(h) => ErrorView::WrongHandleType(*h),
            Error::Other(s) => ErrorView::Other(s@),
            Error::LibraryError(code, s) => ErrorView::LibraryError(*code, s@),
        }
    }
}

impl Error {
    /// The integer code of this error.
    pub fn code_as_i32(&self) -> (r: i32)
        ensures
            r == self@.code(),
    {
        match self {
            Error::NullParameter(_) => ErrorCode::NullParameter.as_i32(),
            Error::StringTooLong(_) => ErrorCode::StringTooLong.as_i32(),
            Error::InvalidHandle(_) => ErrorCode::InvalidHandle.as_i32(),
            Error::WrongHandleType(_) => ErrorCode::WrongHandleType.as_i32(),
            Error::Other(_) => ErrorCode::Other.as_i32(),
            Error::LibraryError(code, _) => *code,
        }
    }

    /// The message of this error, as the boundary shows it.
    pub fn to_string(&self) -> (r: String)
        ensures
            r@ == self@.message(),
    {
        match self {
            Error::NullParameter(s) => String::from_str("NullParameter: ").concat(s.as_str()),
            Error::StringTooLong(s) => String::from_str("StringTooLong: ").concat(s.as_str()),
            Error::InvalidHandle(h) => {
                let mut r = String::from_str("InvalidHandle: ");
                push_decimal(&mut r, *h as u128);
                r
            },
            Error::WrongHandleType(h) => {
                let mut r = String::from_str("WrongHandleType: ");
                push_decimal(&mut r, *h as u128);
                r
            },
            Error::Other(s) => String::from_str("Other: ").concat(s.as_str()),
            Error::LibraryError(_, s) => s.clone(),
        }
    }

    /// A library error with `code`, whose message is `name`, ": ", then `text`.
    pub fn from_code_and_name(code: i32, name: &str, text: &str) -> (r: Error)
        ensures
            r@ == ErrorView::LibraryError(code, name@ + ": "@ + text@),
    {
        let mut m = String::from_str(name);
        m.append(": ");
        m.append(text);
        Error::LibraryError(code, m)
    }

    /// Converts a library's error through `mapper`, which gives the code and
    /// the name to report for it; the details are the error's display text.
    pub fn from_mapper<E: core::fmt::Display, F: Fn(&E) -> (i32, &'static str)>(
        e: E,
        mapper: F,
    ) -> (r: Error)
        requires
            call_requires(mapper, (&e,)),
        ensures
            exists|code: i32, name: &'static str, text: String|
                {
                    &&& #[trigger] call_ensures(mapper, (&e,), (code, name))
                    &&& #[trigger] to_string_from_display_ensures::<E>(&e, text)
                    &&& r@ == ErrorView::LibraryError(code, name@ + ": "@ + text@)
                },
    {
        let (code, name) = mapper(&e);
        let text = e.to_string();
        Error::from_code_and_name(code, name, text.as_str())
    }

    /// Converts a library's error through `table`: the first entry whose
    /// matcher accepts the error gives the code and the name to report, and
    /// the details are the error's display text. When no matcher accepts it,
    /// the result is `Other` with "Other: " and the display text.
    pub fn from_table<E: core::fmt::Display, M: Fn(&E) -> bool>(
        e: E,
        table: &[(M, &'static str, i32)],
    ) -> (r: Error)
        requires
            forall|i: int| 0 <= i < table@.len() ==> call_requires(table@[i].0, (&e,)),
        ensures
            exists|text: String|
                {
                    &&& #[trigger] to_string_from_display_ensures::<E>(&e, text)
                    &&& match r@ {
                        ErrorView::LibraryError(code, m) => exists|i: int|
                            {
                                &&& 0 <= i < table@.len()
                                &&& call_ensures(table@[i].0, (&e,), true)
                                &&& forall|j: int|
                                    0 <= j < i ==> call_ensures(#[trigger] table@[j].0, (&e,), false)
                                &&& code == table@[i].2
                                &&& m == table@[i].1@ + ": "@ + text@
                            },
                        ErrorView::Other(m) => {
                            &&& forall|j: int|
                                0 <= j < table@.len() ==> call_ensures(
                                    #[trigger] table@[j].0,
                                    (&e,),
                                    false,
                                )
                            &&& m == "Other: "@ + text@
                        },
                        _ => false,
                    }
                },
    {
        let text = e.to_string();
        let mut i: usize = 0;
        while i < table.len()
            invariant
                0 <= i <= table@.len(),
                to_string_from_display_ensures::<E>(&e, text),
                forall|k: int| 0 <= k < table@.len() ==> call_requires(table@[k].0, (&e,)),
                forall|j: int| 0 <= j < i ==> call_ensures(#[trigger] table@[j].0, (&e,), false),
            decreases table@.len() - i,
        {
            let entry = &table[i];
            if (entry.0)(&e) {
                let r = Error::from_code_and_name(entry.2, entry.1, text.as_str());
                return r;
            }
            i = i + 1;
        }
        let mut m = String::from_str("Other: ");
        m.append(text.as_str());
        Error::Other(m)
    }

    /// The message of the error in `slot`, if there is one.
    pub fn last_message(slot: &LastError<Error>) -> (r: Option<String>)
        ensures
            match r {
                Some(m) => slot@ matches Some(e) && m@ == e@.message(),
                None => slot@ is None,
            },
    {
        match slot.peek() {
            Some(e) => Some(e.to_string()),
            None => None,
        }
    }

    /// The code of the error in `slot`, or 0 when the slot is empty.
    pub fn last_code(slot: &LastError<Error>) -> (r: i32)
        ensures
            r == match slot@ {
                Some(e) => e@.code(),
                None => ErrorCode::NoError.spec_as_i32(),
            },
    {
        match slot.peek() {
            Some(e) => e.code_as_i32(),
            None => ErrorCode::NoError.as_i32(),
        }
    }

    /// Makes this error the last one of `slot`.
    pub fn set_last(self, slot: &mut LastError<Error>)
        ensures
            final(slot)@ == Some(self),
    {
        slot.set(self);
    }

    /// Takes the last error out of `slot`, leaving it empty.
    pub fn take_last(slot: &mut LastError<Error>) -> (r: Option<Error>)
        ensures
            r == old(slot)@,
            final(slot)@ is None,
    {
        slot.take()
    }
}

} // verus!
