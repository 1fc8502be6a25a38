use vstd::prelude::*;

verus! {

/// The stage of a run that failed.
#[derive(Clone, Copy, Debug, PartialEq, Eq, Structural)]
pub enum ErrorKind {
    /// A file or stream could not be read or written.
    Io,
    /// The audio container is malformed or not 16-bit integer PCM.
    Format,
    /// The samples do not fit the declared channel layout.
    Conversion,
    /// The speech model could not be loaded.
    Load,
    /// The speech engine failed while decoding.
    Inference,
    /// The generation service failed to answer or to stream.
    Generation,
    /// A failure that belongs to none of the stages above.
    Other,
}

/// An error with the stage it came from and a readable description.
#[derive(Debug)]
pub struct Error {
    pub kind: ErrorKind,
    pub message: String,
}

impl Error {
    /// An error of no particular stage, described by `message`.
    pub fn new(message: &str) -> (r: Self)
        ensures
            r.kind == ErrorKind::Other,
            r.message@ == message@,
    {
        Error { kind: ErrorKind::Other, message: String::from_str(message) }
    }

    /// An error of stage `kind`, described by `message`.
    pub fn with_kind(kind: ErrorKind, message: &str) -> (r: Self)
        ensures
            r.kind == kind,
            r.message@ == message@,
    {
        Error { kind, message: String::from_str(message) }
    }

    /// An error of stage `kind` whose message names the failing step
    /// (`context`) followed by the cause (`detail`).
    pub fn wrap(kind: ErrorKind, context: &str, detail: &str) -> (r: Self)
        ensures
            r.kind == kind,
            r.message@ == wrapped_message(context@, detail@),
    {
        let mut message = String::from_str(context);
        message.append(": ");
        message.append(detail);
        Error { kind, message }
    }

    /// The description of the error.
    pub fn message(&self) -> (r: String)
        ensures
            r@ == self.message@,
    {
        self.message.clone()
    }
}

/// The message of an error raised at step `context` because of `detail`.
pub open spec fn wrapped_message(context: Seq<char>, detail: Seq<char>) -> Seq<char> {
    context + ": "@ + detail
}

} // verus!
