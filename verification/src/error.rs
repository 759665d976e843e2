//! The errors that this library reports.

use crate::text::debug_quote;
use crate::text::debug_quoted;
use crate::text::replace_char;
use crate::text::replaced;
use vstd::prelude::*;
use vstd::string::*;

verus! {

/// What went wrong, as far as a caller can branch on it.
#[derive(Debug, Clone, Copy, PartialEq, Eq, Structural)]
pub enum ErrorKind {
    /// The request did not reach the service, or the service did not answer
    /// with status 200.
    RequestError,
    /// The credentials were incomplete when the client was built.
    ClientBuilderError,
    /// The caller asked for something that cannot be sent at all.
    ClientError,
}

impl ErrorKind {
    /// The name of the variant, as it is printed.
    pub open spec fn label(self) -> Seq<char> {
        match self {
            ErrorKind::RequestError => "RequestError"@,
            ErrorKind::ClientBuilderError => "ClientBuilderError"@,
            ErrorKind::ClientError => "ClientError"@,
        }
    }

    /// The name of the variant.
    pub fn name(&self) -> (name: &'static str)
        ensures
            name@ == self.label(),
    {
        match self {
            ErrorKind::RequestError => "RequestError",
            ErrorKind::ClientBuilderError => "ClientBuilderError",
            ErrorKind::ClientError => "ClientError",
        }
    }
}

/// An error of this library: its kind, and a cause in words where one is known.
pub struct EasyAlgoliaError {
    error_kind: ErrorKind,
    cause: Option<String>,
}

/// The mathematical content of an [`EasyAlgoliaError`].
pub struct ErrorView {
    pub kind: ErrorKind,
    pub cause: Option<Seq<char>>,
}

impl View for EasyAlgoliaError {
    type V = ErrorView;

    closed spec fn view(&self) -> ErrorView {
        ErrorView { kind: self.error_kind, cause: self.cause.deep_view() }
    }
}

/// The debug rendering of an error of kind `kind`, given the cause already in
/// its quoted form.
///
/// A request error prints its cause bare, and leaves the field out when there
/// is none; the other kinds print the cause as the optional value that it is.
pub open spec fn debug_layout(kind: ErrorKind, quoted_cause: Option<Seq<char>>) -> Seq<char> {
    let head = "EasyAlgoliaError { error_kind: "@ + kind.label();
    match quoted_cause {
        Some(quoted) => if kind == ErrorKind::RequestError {
            head + ", cause: "@ + quoted + " }"@
        } else {
            head + ", cause: Some("@ + quoted + ") }"@
        },
        None => if kind == ErrorKind::RequestError {
            head + "}"@
        } else {
            head + ", cause: None }"@
        },
    }
}

/// The cause as it goes into the debug rendering: a request error loses its
/// double quotes first, then the text is quoted and escaped.
pub open spec fn quoted_cause(e: ErrorView) -> Option<Seq<char>> {
    match e.cause {
        Some(cause) => if e.kind == ErrorKind::RequestError {
            Some(debug_quoted(replaced(cause, '"', Seq::empty())))
        } else {
            Some(debug_quoted(cause))
        },
        None => None,
    }
}

/// Lays out the debug rendering of an error from its kind and its cause in
/// quoted form.
pub fn debug_layout_of(kind: ErrorKind, quoted_cause: Option<&str>) -> (text: String)
    ensures
        text@ == debug_layout(kind, quoted_cause.deep_view()),
{
    let head = "EasyAlgoliaError { error_kind: ".to_owned().concat(kind.name());
    let is_request = match kind {
        ErrorKind::RequestError => true,
        _ => false,
    };
    match quoted_cause {
        Some(quoted) => {
            if is_request {
                head.concat(", cause: ").concat(quoted).concat(" }")
            } else {
                head.concat(", cause: Some(").concat(quoted).concat(") }")
            }
        },
        None => {
            if is_request {
                head.concat("}")
            } else {
                head.concat(", cause: None }")
            }
        },
    }
}

impl EasyAlgoliaError {
    /// An error of the given kind with the given cause.
    pub fn new(error_kind: ErrorKind, cause: Option<String>) -> (e: Self)
        ensures
            e@ == (ErrorView { kind: error_kind, cause: cause.deep_view() }),
    {
        Self { error_kind, cause }
    }

    /// The kind of this error.
    pub fn error_kind(&self) -> (kind: ErrorKind)
        ensures
            kind == self@.kind,
    {
        self.error_kind
    }

    /// The cause of this error in words, where one is known.
    pub fn cause(&self) -> (cause: Option<&str>)
        ensures
            cause.deep_view() == self@.cause,
    {
        match &self.cause {
            Some(text) => Some(text.as_str()),
            None => None,
        }
    }

    /// The debug rendering of this error.
    pub fn debug_string(&self) -> (text: String)
        ensures
            text@ == debug_layout(self@.kind, quoted_cause(self@)),
    {
        match &self.cause {
            Some(cause) => {
                let quoted = match self.error_kind {
                    ErrorKind::RequestError => {
                        let bare = replace_char(cause.as_str(), '"', "");
                        proof {
                            reveal_strlit("");
                            assert(""@ == Seq::<char>::empty());
                        }
                        debug_quote(bare.as_str())
                    },
                    _ => debug_quote(cause.as_str()),
                };
                debug_layout_of(self.error_kind, Some(quoted.as_str()))
            },
            None => debug_layout_of(self.error_kind, None),
        }
    }

    /// The message shown to a user: the same for every error.
    pub fn display_string(&self) -> (text: String)
        ensures
            text@ == "An error occurred in EasyAlgolia: ..."@,
    {
        "An error occurred in EasyAlgolia: ...".to_owned()
    }
}

impl From<reqwest::Error> for EasyAlgoliaError {
    /// Every failure of the transport is a request error without a cause.
    fn from(err: reqwest::Error) -> (e: Self)
        ensures
            e@ == (ErrorView { kind: ErrorKind::RequestError, cause: None }),
    {
        EasyAlgoliaError::new(ErrorKind::RequestError, None)
    }
}

impl vstd::std_specs::convert::FromSpecImpl<reqwest::Error> for EasyAlgoliaError {
    open spec fn obeys_from_spec() -> bool {
        true
    }

    closed spec fn from_spec(err: reqwest::Error) -> Self {
        EasyAlgoliaError { error_kind: ErrorKind::RequestError, cause: None }
    }
}

} // verus!
