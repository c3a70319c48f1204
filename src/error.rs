use vstd::prelude::*;

verus! {

/// All possible error kinds.
#[derive(Debug, Copy, Clone, PartialEq, Eq, Structural)]
pub enum ErrorKind {
    /// Error creating a fixed-size text.
    FixedText,
}

/// The static description of each error kind.
pub open spec fn kind_description(kind: ErrorKind) -> Seq<char> {
    match kind {
        ErrorKind::FixedText => "Fixed-size text"@,
    }
}

impl ErrorKind {
    /// Returns the static description of the kind.
    pub fn description(self) -> (r: &'static str)
        ensures
            r@ == kind_description(self),
    {
        match self {
            ErrorKind::FixedText => {
                proof {
                    reveal_strlit("Fixed-size text");
                }
                "Fixed-size text"
            },
        }
    }
}

/// General error: a kind and a free-text cause.
#[derive(Debug)]
pub struct Error {
    kind: ErrorKind,
    info: &'static str,
}

/// How an error is rendered: `"{kind}: {info} "`, with a trailing space.
pub open spec fn error_text(kind: ErrorKind, info: Seq<char>) -> Seq<char> {
    kind_description(kind) + ": "@ + info + " "@
}

impl Error {
    /// The kind of the error.
    pub closed spec fn spec_kind(&self) -> ErrorKind {
        self.kind
    }

    /// The cause of the error.
    pub closed spec fn spec_info(&self) -> &'static str {
        self.info
    }

    /// Creates an error of the given kind with a cause.
    pub fn new(kind: ErrorKind, info: &'static str) -> (r: Self)
        ensures
            r.spec_kind() == kind,
            r.spec_info() == info,
    {
        Error { kind, info }
    }

    /// Returns the kind of the error.
    pub fn kind(&self) -> (r: ErrorKind)
        ensures
            r == self.spec_kind(),
    {
        self.kind
    }

    /// Returns the cause of the error.
    pub fn info(&self) -> (r: &'static str)
        ensures
            r == self.spec_info(),
    {
        self.info
    }

    /// Renders the error as `"{kind}: {info} "`.
    pub fn message(&self) -> (r: String)
        ensures
            r@ == error_text(self.spec_kind(), self.spec_info()@),
    {
        let mut text = String::new();
        text.append(self.kind.description());
        proof {
            reveal_strlit(": ");
            reveal_strlit(" ");
        }
        text.append(": ");
        text.append(self.info);
        text.append(" ");
        text
    }
}

/// A specialized `Result` type.
pub type Result<T> = core::result::Result<T, Error>;

} // verus!
