use vstd::prelude::*;
use crate::json::json_error_message;
use crate::text::u64_to_decimal;

verus! {

/// Why hydration data could not be read.
#[derive(Debug)]
pub enum ParseError {
    /// The page holds neither `__NEXT_DATA__` nor Flight pushes.
    MissingData,
    /// No record and no `__NEXT_DATA__` has a value at this JSON pointer.
    MissingPath { pointer: String },
    /// A JSON text did not parse.
    Json { context: &'static str, source: serde_json::Error },
    /// A `self.__next_f.push(..)` call or its segment is malformed.
    Transport { reason: &'static str },
    /// A Flight record is malformed; `offset` is the byte where it starts.
    Record { offset: usize, reason: &'static str },
}

/// What a [`ParseError`] says, without the parse error of serde_json.
pub enum ParseErrorKind {
    MissingData,
    MissingPath(Seq<char>),
    Json(Seq<char>),
    Transport(Seq<char>),
    Record(nat, Seq<char>),
}

/// The message of an error of this kind, where it does not hold a message of serde_json.
pub open spec fn kind_message(k: ParseErrorKind) -> Seq<char> {
    match k {
        ParseErrorKind::MissingData => "Next.js hydration data was not found"@,
        ParseErrorKind::MissingPath(pointer) => "Next.js target data was not found at "@ + pointer,
        ParseErrorKind::Json(context) => context + ": "@,
        ParseErrorKind::Transport(reason) => "invalid Next.js Flight transport: "@ + reason,
        ParseErrorKind::Record(offset, reason) => "invalid Next.js Flight record at byte "@
            + crate::text::decimal_digits(offset) + ": "@ + reason,
    }
}

/// `message` is the message of an error of kind `k`: equal to it, or, for a
/// JSON error, starting with it and followed by serde_json's message.
pub open spec fn is_message_of(k: ParseErrorKind, message: Seq<char>) -> bool {
    if k is Json {
        kind_message(k).is_prefix_of(message)
    } else {
        message == kind_message(k)
    }
}

/// The stage that an error of kind `k` names, as [`ParseError::context`] gives it.
pub open spec fn kind_context(k: ParseErrorKind) -> Seq<char> {
    match k {
        ParseErrorKind::MissingData => "Next.js hydration data was not found"@,
        ParseErrorKind::MissingPath(_) => "Next.js target data was not found"@,
        ParseErrorKind::Json(context) => context,
        ParseErrorKind::Transport(_) => "Next.js Flight transport"@,
        ParseErrorKind::Record(_, _) => "Next.js Flight record"@,
    }
}

impl ParseError {
    pub open spec fn kind(&self) -> ParseErrorKind {
        match self {
            ParseError::MissingData => ParseErrorKind::MissingData,
            ParseError::MissingPath { pointer } => ParseErrorKind::MissingPath(pointer@),
            ParseError::Json { context, .. } => ParseErrorKind::Json(context@),
            ParseError::Transport { reason } => ParseErrorKind::Transport(reason@),
            ParseError::Record { offset, reason } => ParseErrorKind::Record(*offset as nat, reason@),
        }
    }

    /// The stage that failed, as [`ParseError::context`] names it.
    pub open spec fn context_spec(&self) -> Seq<char> {
        match self {
            ParseError::MissingData => "Next.js hydration data was not found"@,
            ParseError::MissingPath { .. } => "Next.js target data was not found"@,
            ParseError::Json { context, .. } => context@,
            ParseError::Transport { .. } => "Next.js Flight transport"@,
            ParseError::Record { .. } => "Next.js Flight record"@,
        }
    }

    /// A short description of the stage that failed.
    pub fn context(&self) -> (c: &'static str)
        ensures
            c@ == self.context_spec(),
            c@ == kind_context(self.kind()),
            self is MissingData ==> c@ == "Next.js hydration data was not found"@,
            self is MissingPath ==> c@ == "Next.js target data was not found"@,
            self matches ParseError::Json { context, .. } ==> c@ == context@,
            self is Transport ==> c@ == "Next.js Flight transport"@,
            self is Record ==> c@ == "Next.js Flight record"@,
    {
        match self {
            ParseError::MissingData => "Next.js hydration data was not found",
            ParseError::MissingPath { .. } => "Next.js target data was not found",
            ParseError::Json { context, .. } => context,
            ParseError::Transport { .. } => "Next.js Flight transport",
            ParseError::Record { .. } => "Next.js Flight record",
        }
    }

    /// The message of the error: the stage, and what went wrong there.
    pub fn message(&self) -> (m: String)
        ensures
            is_message_of(self.kind(), m@),
            self is MissingData ==> m@ == "Next.js hydration data was not found"@,
            self matches ParseError::MissingPath { pointer } ==> m@
                == "Next.js target data was not found at "@ + pointer@,
            self matches ParseError::Json { context, .. } ==> (context@ + ": "@).is_prefix_of(m@),
            self matches ParseError::Transport { reason } ==> m@
                == "invalid Next.js Flight transport: "@ + reason@,
            self matches ParseError::Record { offset, reason } ==> m@
                == "invalid Next.js Flight record at byte "@ + crate::text::decimal_digits(
                offset as nat) + ": "@ + reason@,
    {
        match self {
            ParseError::MissingData => "Next.js hydration data was not found".to_owned(),
            ParseError::MissingPath { pointer } => {
                let mut m = "Next.js target data was not found at ".to_owned();
                m.append(pointer.as_str());
                m
            },
            ParseError::Json { context, source } => {
                let mut m = (*context).to_owned();
                m.append(": ");
                let ghost head = m@;
                m.append(json_error_message(source).as_str());
                assert(head.is_prefix_of(m@)) by {
                    assert(m@.subrange(0, head.len() as int) =~= head);
                }
                m
            },
            ParseError::Transport { reason } => {
                let mut m = "invalid Next.js Flight transport: ".to_owned();
                m.append(reason);
                m
            },
            ParseError::Record { offset, reason } => {
                let mut m = "invalid Next.js Flight record at byte ".to_owned();
                m.append(u64_to_decimal(*offset as u64).as_str());
                m.append(": ");
                m.append(reason);
                m
            },
        }
    }
}

} // verus!
