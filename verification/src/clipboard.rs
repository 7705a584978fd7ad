//! The vocabulary shared by every backend: selectors, pasted data and errors.

use vstd::prelude::*;

verus! {

/// The selection a paste reads from.
#[derive(Clone, Copy, Debug, PartialEq, Eq, Structural)]
pub enum Source {
    Default,
    Primary,
    Clipboard,
}

/// The selection, or pair of selections, a copy writes to.
#[derive(Clone, Copy, Debug, PartialEq, Eq, Structural)]
pub enum Dest {
    Default,
    Primary,
    Clipboard,
    Both,
}

impl Dest {
    /// Whether a paste from `source` reads a selection that a copy to `self`
    /// wrote: the two name the same selection, or the copy went to both.
    pub open spec fn feeds(self, source: Source) -> bool {
        match self {
            Dest::Default => source == Source::Default,
            Dest::Primary => source == Source::Primary,
            Dest::Clipboard => source == Source::Clipboard,
            Dest::Both => true,
        }
    }
}

/// What went wrong, in broad terms.
#[derive(Clone, Copy, Debug, PartialEq, Eq, Structural)]
pub enum ErrorDetail {
    /// No display server to connect to.
    NoDisplayServer,
    /// Invalid UTF-8 data received.
    InvalidUtf8,
    /// A failure reported by the clipboard subsystem.
    System,
}

impl ErrorDetail {
    /// The text shown for this kind of error, as a sequence of characters.
    pub open spec fn description(self) -> Seq<char> {
        match self {
            ErrorDetail::NoDisplayServer => "no display server available"@,
            ErrorDetail::InvalidUtf8 => "invalid UTF-8"@,
            ErrorDetail::System => "system error"@,
        }
    }

    /// The text shown for this kind of error.
    pub fn message(&self) -> (text: String)
        ensures
            text@ == self.description(),
    {
        match self {
            ErrorDetail::NoDisplayServer => "no display server available".to_string(),
            ErrorDetail::InvalidUtf8 => "invalid UTF-8".to_string(),
            ErrorDetail::System => "system error".to_string(),
        }
    }
}

/// What a paste returns.
#[derive(Clone, Debug, PartialEq, Eq)]
pub struct Data {
    pub data: String,
    /// The MIME type, if known. Advisory only: the data is always text.
    pub mime: Option<String>,
}

/// The mathematical value of a [`Data`].
pub struct DataView {
    pub data: Seq<char>,
    pub mime: Option<Seq<char>>,
}

impl View for Data {
    type V = DataView;

    open spec fn view(&self) -> DataView {
        DataView {
            data: self.data@,
            mime: match self.mime {
                Some(mime) => Some(mime@),
                None => None,
            },
        }
    }
}

impl DataView {
    /// The result of pasting from an empty clipboard.
    pub open spec fn empty() -> DataView {
        DataView { data: Seq::empty(), mime: None }
    }
}

impl Data {
    /// The result of pasting from an empty clipboard: no text and no MIME type.
    pub fn empty() -> (data: Data)
        ensures
            data@ == DataView::empty(),
    {
        Data { data: String::new(), mime: None }
    }
}

/// A failure and the failures that led to it: a message and, unless this is
/// the root of the chain, the cause one step further down.
#[derive(Debug, PartialEq, Eq)]
pub struct ErrorChain {
    pub message: String,
    pub source: Option<Box<ErrorChain>>,
}

impl ErrorChain {
    /// The messages of the chain, this failure's first and the root cause's last.
    pub open spec fn messages(self) -> Seq<Seq<char>>
        decreases self,
    {
        match self.source {
            None => seq![self.message@],
            Some(inner) => seq![self.message@] + inner.messages(),
        }
    }

    /// A chain is never empty, and its first message is its own.
    pub proof fn lemma_messages_nonempty(self)
        ensures
            self.messages().len() >= 1,
            self.messages()[0] == self.message@,
        decreases self,
    {
        match self.source {
            None => {},
            Some(inner) => {
                inner.lemma_messages_nonempty();
            },
        }
    }

    /// A failure with no further cause.
    pub fn root(message: String) -> (chain: ErrorChain)
        ensures
            chain.message == message,
            chain.source is None,
            chain@ == seq![message@],
    {
        ErrorChain { message, source: None }
    }

    /// A failure caused by `source`.
    pub fn caused_by(message: String, source: ErrorChain) -> (chain: ErrorChain)
        ensures
            chain.message == message,
            chain.source == Some(Box::new(source)),
            chain@ == seq![message@] + source@,
    {
        ErrorChain { message, source: Some(Box::new(source)) }
    }
}

impl View for ErrorChain {
    type V = Seq<Seq<char>>;

    open spec fn view(&self) -> Seq<Seq<char>> {
        self.messages()
    }
}

/// A clipboard operation's error: its kind and what caused it.
#[derive(Debug, PartialEq, Eq)]
pub struct Error {
    detail: ErrorDetail,
    source: Option<ErrorChain>,
}

/// The mathematical value of an [`Error`].
pub struct ErrorView {
    pub detail: ErrorDetail,
    /// The messages of the cause and of its causes; `None` where there is none.
    pub source: Option<Seq<Seq<char>>>,
}

impl ErrorView {
    /// A failure that the clipboard subsystem reported, with its cause.
    pub open spec fn system(source: Seq<Seq<char>>) -> ErrorView {
        ErrorView { detail: ErrorDetail::System, source: Some(source) }
    }

    /// The error as a chain of messages: its own, then those of its causes.
    pub open spec fn chain(self) -> Seq<Seq<char>> {
        match self.source {
            None => seq![self.detail.description()],
            Some(source) => seq![self.detail.description()] + source,
        }
    }
}

impl View for Error {
    type V = ErrorView;

    closed spec fn view(&self) -> ErrorView {
        ErrorView {
            detail: self.detail,
            source: match self.source {
                Some(source) => Some(source@),
                None => None,
            },
        }
    }
}

impl Error {
    /// An error of this kind with nothing known to have caused it.
    pub fn new(detail: ErrorDetail) -> (error: Error)
        ensures
            error@ == (ErrorView { detail, source: None }),
    {
        Error { detail, source: None }
    }

    /// An error of this kind caused by `source`, the failure underneath it
    /// with the failures underneath that.
    pub fn new_with_source(detail: ErrorDetail, source: ErrorChain) -> (error: Error)
        ensures
            error@ == (ErrorView { detail, source: Some(source@) }),
    {
        Error { detail, source: Some(source) }
    }

    /// The error for a failure that the clipboard subsystem reported.
    pub fn system(source: ErrorChain) -> (error: Error)
        ensures
            error@ == ErrorView::system(source@),
    {
        Error::new_with_source(ErrorDetail::System, source)
    }

    /// The kind of this error.
    pub fn detail(&self) -> (detail: ErrorDetail)
        ensures
            detail == self@.detail,
    {
        self.detail
    }

    /// The text shown for this error: that of its kind.
    pub fn message(&self) -> (text: String)
        ensures
            text@ == self@.detail.description(),
    {
        self.detail.message()
    }

    /// The cause of this error, if it has one.
    pub fn source(&self) -> (source: Option<&ErrorChain>)
        ensures
            match source {
                Some(chain) => self@.source == Some(chain@),
                None => self@.source is None,
            },
    {
        self.source.as_ref()
    }

    /// The error as a chain: its own message on top of its cause.
    pub fn into_chain(self) -> (chain: ErrorChain)
        ensures
            chain@ == self@.chain(),
    {
        let message = self.detail.message();
        match self.source {
            None => ErrorChain::root(message),
            Some(source) => ErrorChain::caused_by(message, source),
        }
    }
}

/// The mathematical value of a paste's result.
pub open spec fn paste_view(result: Result<Data, Error>) -> Result<DataView, ErrorView> {
    match result {
        Ok(data) => Ok(data@),
        Err(error) => Err(error@),
    }
}

/// The mathematical value of a copy's result.
pub open spec fn copy_view(result: Result<(), Error>) -> Result<(), ErrorView> {
    match result {
        Ok(()) => Ok(()),
        Err(error) => Err(error@),
    }
}

/// What a copy comes to once the clipboard subsystem has answered: success,
/// or a system error that keeps the subsystem's failure as its cause.
pub open spec fn copy_result(outcome: Result<(), Seq<Seq<char>>>) -> Result<(), ErrorView> {
    match outcome {
        Ok(()) => Ok(()),
        Err(cause) => Err(ErrorView::system(cause)),
    }
}

/// The mathematical value of what a clipboard subsystem answered to a store.
pub open spec fn stored_view(outcome: Result<(), ErrorChain>) -> Result<(), Seq<Seq<char>>> {
    match outcome {
        Ok(()) => Ok(()),
        Err(cause) => Err(cause@),
    }
}

/// Ends a copy with what the clipboard subsystem answered.
pub fn copied(outcome: Result<(), ErrorChain>) -> (result: Result<(), Error>)
    ensures
        copy_view(result) == copy_result(stored_view(outcome)),
{
    match outcome {
        Ok(()) => Ok(()),
        Err(cause) => Err(Error::system(cause)),
    }
}

} // verus!
