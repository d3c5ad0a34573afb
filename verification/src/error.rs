//! The error taxonomy: leaves, the two families that group them, and the
//! top-level error every primitive returns.
//!
//! A leaf says what was being attempted and keeps the fault that stopped it.
//! A family is an enum of leaves; the top-level error holds one family
//! value, or one of the few leaves that belong to no family. Nothing is lost
//! on the way up: the view of the wrapped value holds the view of the value
//! it was made from.

use crate::text::{join, lemma_occurs_between, lemma_occurs_widens, occurs_in};
use vstd::prelude::*;
use vstd::std_specs::convert::FromSpec;

verus! {

/// `std::io::Error`, the fault of an I/O call. The library never looks
/// inside one: it carries the value from the failed call to the caller.
#[verifier::external_type_specification]
#[verifier::external_body]
pub struct ExIoFault(std::io::Error);

/// `reqwest::Error`, the fault of building an HTTP client or of sending a
/// request. Carried through unopened.
#[verifier::external_type_specification]
#[verifier::external_body]
pub struct ExHttpFault(reqwest::Error);

/// `url::ParseError`, the reason a string is no absolute URL. Carried
/// through unopened.
#[verifier::external_type_specification]
#[verifier::external_body]
pub struct ExUrlFault(url::ParseError);

/// What `format!("{:?}", items)` gives for a list of strings: the items in
/// double quotes, with std's escapes, between square brackets.
pub uninterp spec fn debug_list(items: Seq<Seq<char>>) -> Seq<char>;

/// What `Display` of `url::ParseError` writes for a fault: the reason in
/// words, the same text for the same reason.
pub uninterp spec fn url_fault_words(fault: url::ParseError) -> Seq<char>;

/// What `Display` of `reqwest::Error` writes for a fault: the kind of
/// failure and, where the fault knows it, the URL.
pub uninterp spec fn http_fault_words(fault: reqwest::Error) -> Seq<char>;

/// Failures of the I/O family. Each leaf keeps the fault that caused it.
#[non_exhaustive]
#[derive(Debug)]
pub enum IOError {
    /// A write to a stream or to the file system failed.
    WriteError { message: String, source: std::io::Error },
    /// A read from a stream or from the file system failed.
    ReadError { message: String, source: std::io::Error },
    /// Flushing an output stream failed.
    FlushError { source: std::io::Error },
    /// Any other I/O fault.
    OtherError { message: String, source: std::io::Error },
}

/// Failures of file handling. The family has no leaf yet: its one variant
/// holds a value that cannot exist, so no `IOErrorFile` can be built.
#[derive(Debug)]
pub enum IOErrorFile {
    Never(core::convert::Infallible),
}

/// Failures of the request family.
#[non_exhaustive]
#[allow(inconsistent_fields)]
#[derive(Debug)]
pub enum RequestError {
    /// The HTTP client could not be built.
    ClientBuilderError { source: reqwest::Error },
    /// The URL is not one of the expected host; no request was made.
    HostNotMatch { input: String, message: String },
    /// The string is no absolute URL.
    ParseURLError { url: String, source: url::ParseError },
    /// The request could not be sent, or no response came back.
    RequestFailed { url: String, method: String, source: reqwest::Error },
}

/// The error that every primitive returns.
#[non_exhaustive]
#[derive(Debug)]
pub enum ShawtyError {
    /// A placeholder without content.
    ExampleError(),
    /// A primitive observed a state that cannot be; there is no fault to
    /// point at, only the description.
    WeirdError { message: String },
    /// A failure of the request family.
    Request(RequestError),
    /// A failure of the I/O family.
    IO(IOError),
    /// A command could not be started (`"spawning"`) or failed while it ran
    /// (`"executing"`).
    ExecuteCommandError {
        command: String,
        command_args: Vec<String>,
        spawning_or_executing: String,
        error: std::io::Error,
    },
}

/// The fault at the bottom of an error.
pub enum Cause {
    Io(std::io::Error),
    Url(url::ParseError),
    Http(reqwest::Error),
}

/// The mathematical value of an [`IOError`].
pub enum IOErrorView {
    WriteError { message: Seq<char>, source: std::io::Error },
    ReadError { message: Seq<char>, source: std::io::Error },
    FlushError { source: std::io::Error },
    OtherError { message: Seq<char>, source: std::io::Error },
}

/// The mathematical value of a [`RequestError`].
#[allow(inconsistent_fields)]
pub enum RequestErrorView {
    ClientBuilderError { source: reqwest::Error },
    HostNotMatch { input: Seq<char>, message: Seq<char> },
    ParseURLError { url: Seq<char>, source: url::ParseError },
    RequestFailed { url: Seq<char>, method: Seq<char>, source: reqwest::Error },
}

/// The mathematical value of a [`ShawtyError`].
pub enum ShawtyErrorView {
    ExampleError,
    WeirdError { message: Seq<char> },
    Request(RequestErrorView),
    IO(IOErrorView),
    ExecuteCommandError {
        command: Seq<char>,
        command_args: Seq<Seq<char>>,
        spawning_or_executing: Seq<char>,
        error: std::io::Error,
    },
}

/// What stands between an error's own words and the words of its cause.
pub open spec fn caused_by() -> Seq<char> {
    "\nCaused by: "@
}

impl IOErrorView {
    /// The fault that the leaf keeps.
    pub open spec fn source(self) -> std::io::Error {
        match self {
            IOErrorView::WriteError { source, .. } => source,
            IOErrorView::ReadError { source, .. } => source,
            IOErrorView::FlushError { source } => source,
            IOErrorView::OtherError { source, .. } => source,
        }
    }

    /// What was being attempted, where the leaf says so.
    pub open spec fn context(self) -> Option<Seq<char>> {
        match self {
            IOErrorView::WriteError { message, .. } => Some(message),
            IOErrorView::ReadError { message, .. } => Some(message),
            IOErrorView::FlushError { .. } => None,
            IOErrorView::OtherError { message, .. } => Some(message),
        }
    }

    /// The leaf's own words.
    pub open spec fn headline(self) -> Seq<char> {
        match self {
            IOErrorView::WriteError { message, .. } => "WriteIOError: '"@ + message + "'."@,
            IOErrorView::ReadError { message, .. } => "ReadIOError: '"@ + message + "'."@,
            IOErrorView::FlushError { .. } => "FlushIOError: Failed to flush."@,
            IOErrorView::OtherError { message, .. } => "OtherIOError: '"@ + message + "'."@,
        }
    }

    /// The leaf in words, where `cause` is its fault in words.
    pub open spec fn rendered(self, cause: Seq<char>) -> Seq<char> {
        self.headline() + caused_by() + cause
    }
}

impl RequestErrorView {
    /// What was being attempted, where the leaf says so: the URL in hand.
    pub open spec fn context(self) -> Option<Seq<char>> {
        match self {
            RequestErrorView::ClientBuilderError { .. } => None,
            RequestErrorView::HostNotMatch { input, .. } => Some(input),
            RequestErrorView::ParseURLError { url, .. } => Some(url),
            RequestErrorView::RequestFailed { url, .. } => Some(url),
        }
    }

    /// The fault that the leaf keeps, if it keeps one.
    pub open spec fn cause(self) -> Option<Cause> {
        match self {
            RequestErrorView::ClientBuilderError { source } => Some(Cause::Http(source)),
            RequestErrorView::HostNotMatch { .. } => None,
            RequestErrorView::ParseURLError { source, .. } => Some(Cause::Url(source)),
            RequestErrorView::RequestFailed { source, .. } => Some(Cause::Http(source)),
        }
    }

    /// The leaf's fault in the fault's own words; empty where the leaf
    /// keeps no fault.
    pub open spec fn cause_words(self) -> Seq<char> {
        match self {
            RequestErrorView::ClientBuilderError { source } => http_fault_words(source),
            RequestErrorView::HostNotMatch { .. } => Seq::empty(),
            RequestErrorView::ParseURLError { source, .. } => url_fault_words(source),
            RequestErrorView::RequestFailed { source, .. } => http_fault_words(source),
        }
    }

    /// The leaf in words, where `cause` is its fault in words. Each leaf
    /// that keeps a fault quotes it.
    pub open spec fn rendered(self, cause: Seq<char>) -> Seq<char> {
        match self {
            RequestErrorView::ClientBuilderError { .. } => "Failed to create reqwest client: '"@
                + cause + "'."@,
            RequestErrorView::HostNotMatch { input, message } => "Host name: '"@ + input
                + "' does not match the expected host.\n"@ + message,
            RequestErrorView::ParseURLError { url, .. } => "Failed to parse URL: '"@ + url
                + "' because: '"@ + cause + "'."@,
            RequestErrorView::RequestFailed { url, method, .. } => "Error while making request to: '"@
                + url + "' using method: '"@ + method + "' with error: '"@ + cause + "'"@,
        }
    }
}

impl ShawtyErrorView {
    /// What was being attempted, where the error says so.
    pub open spec fn context(self) -> Option<Seq<char>> {
        match self {
            ShawtyErrorView::ExampleError => None,
            ShawtyErrorView::WeirdError { message } => Some(message),
            ShawtyErrorView::Request(inner) => inner.context(),
            ShawtyErrorView::IO(inner) => inner.context(),
            ShawtyErrorView::ExecuteCommandError { command, .. } => Some(command),
        }
    }

    /// The fault at the bottom of the error, if there is one.
    pub open spec fn cause(self) -> Option<Cause> {
        match self {
            ShawtyErrorView::ExampleError => None,
            ShawtyErrorView::WeirdError { .. } => None,
            ShawtyErrorView::Request(inner) => inner.cause(),
            ShawtyErrorView::IO(inner) => Some(Cause::Io(inner.source())),
            ShawtyErrorView::ExecuteCommandError { error, .. } => Some(Cause::Io(error)),
        }
    }

    /// The error's own words, without those of what it wraps.
    pub open spec fn headline(self) -> Seq<char> {
        match self {
            ShawtyErrorView::ExampleError => "This is an example error!"@,
            ShawtyErrorView::WeirdError { message } => "WeirdError: '"@ + message + "'.\n"@,
            ShawtyErrorView::Request(_) => "Failed to send a request."@,
            ShawtyErrorView::IO(_) => "Operation failed, IO error occurred."@,
            ShawtyErrorView::ExecuteCommandError { command, command_args, .. } =>
                "Error while executing command: '"@ + command + "':\nArgs '"@ + debug_list(
                    command_args,
                ) + "'."@,
        }
    }

    /// The whole chain in words, from the error down to its fault, where
    /// `cause` is that fault in words. An error without a fault is its own
    /// words and nothing else.
    pub open spec fn rendered(self, cause: Seq<char>) -> Seq<char> {
        match self {
            ShawtyErrorView::ExampleError => self.headline(),
            ShawtyErrorView::WeirdError { .. } => self.headline(),
            ShawtyErrorView::Request(inner) => self.headline() + caused_by() + inner.rendered(
                cause,
            ),
            ShawtyErrorView::IO(inner) => self.headline() + caused_by() + inner.rendered(cause),
            ShawtyErrorView::ExecuteCommandError { .. } => self.headline() + caused_by() + cause,
        }
    }
}

impl View for IOError {
    type V = IOErrorView;

    open spec fn view(&self) -> IOErrorView {
        match *self {
            IOError::WriteError { message, source } => IOErrorView::WriteError {
                message: message@,
                source,
            },
            IOError::ReadError { message, source } => IOErrorView::ReadError {
                message: message@,
                source,
            },
            IOError::FlushError { source } => IOErrorView::FlushError { source },
            IOError::OtherError { message, source } => IOErrorView::OtherError {
                message: message@,
                source,
            },
        }
    }
}

impl View for RequestError {
    type V = RequestErrorView;

    open spec fn view(&self) -> RequestErrorView {
        match *self {
            RequestError::ClientBuilderError { source } => RequestErrorView::ClientBuilderError {
                source,
            },
            RequestError::HostNotMatch { input, message } => RequestErrorView::HostNotMatch {
                input: input@,
                message: message@,
            },
            RequestError::ParseURLError { url, source } => RequestErrorView::ParseURLError {
                url: url@,
                source,
            },
            RequestError::RequestFailed { url, method, source } => RequestErrorView::RequestFailed {
                url: url@,
                method: method@,
                source,
            },
        }
    }
}

impl View for ShawtyError {
    type V = ShawtyErrorView;

    open spec fn view(&self) -> ShawtyErrorView {
        match *self {
            ShawtyError::ExampleError() => ShawtyErrorView::ExampleError,
            ShawtyError::WeirdError { message } => ShawtyErrorView::WeirdError { message: message@ },
            ShawtyError::Request(inner) => ShawtyErrorView::Request(inner@),
            ShawtyError::IO(inner) => ShawtyErrorView::IO(inner@),
            ShawtyError::ExecuteCommandError {
                command,
                command_args,
                spawning_or_executing,
                error,
            } => ShawtyErrorView::ExecuteCommandError {
                command: command@,
                command_args: command_args.deep_view(),
                spawning_or_executing: spawning_or_executing@,
                error,
            },
        }
    }
}

impl From<IOError> for ShawtyError {
    fn from(inner: IOError) -> (wrapped: ShawtyError) {
        ShawtyError::IO(inner)
    }
}

impl vstd::std_specs::convert::FromSpecImpl<IOError> for ShawtyError {
    open spec fn obeys_from_spec() -> bool {
        true
    }

    open spec fn from_spec(inner: IOError) -> ShawtyError {
        ShawtyError::IO(inner)
    }
}

impl From<RequestError> for ShawtyError {
    fn from(inner: RequestError) -> (wrapped: ShawtyError) {
        ShawtyError::Request(inner)
    }
}

impl vstd::std_specs::convert::FromSpecImpl<RequestError> for ShawtyError {
    open spec fn obeys_from_spec() -> bool {
        true
    }

    open spec fn from_spec(inner: RequestError) -> ShawtyError {
        ShawtyError::Request(inner)
    }
}

/// `Display` of `std::io::Error`, by `to_string`: the fault in words. The
/// words depend on the fault's kind and on the platform, so nothing is
/// claimed of them.
#[verifier::external_body]
fn io_fault_text(fault: &std::io::Error) -> (text: String) {
    fault.to_string()
}

/// `Display` of `url::ParseError`, by `to_string`: the reason in words.
/// The words depend on the fault alone; they are known to contracts as
/// [`url_fault_words`] of the fault.
#[verifier::external_body]
fn url_fault_text(fault: &url::ParseError) -> (text: String)
    ensures
        text@ == url_fault_words(*fault),
{
    fault.to_string()
}

/// `Display` of `reqwest::Error`, by `to_string`: the kind of failure and,
/// where the fault knows it, the URL. The words depend on the fault alone;
/// they are known to contracts as [`http_fault_words`] of the fault.
#[verifier::external_body]
fn http_fault_text(fault: &reqwest::Error) -> (text: String)
    ensures
        text@ == http_fault_words(*fault),
{
    fault.to_string()
}

/// std's `Debug` of a list of strings, by `format!("{:?}", ..)`. The text
/// depends on the items alone; it is known to contracts as
/// [`debug_list`] of the items.
#[verifier::external_body]
fn debug_list_text(items: &Vec<String>) -> (text: String)
    ensures
        text@ == debug_list(items.deep_view()),
{
    format!("{:?}", items)
}

impl IOError {
    /// The fault that the leaf keeps.
    pub fn source(&self) -> (fault: &std::io::Error)
        ensures
            *fault == self@.source(),
    {
        match self {
            IOError::WriteError { source, .. } => source,
            IOError::ReadError { source, .. } => source,
            IOError::FlushError { source } => source,
            IOError::OtherError { source, .. } => source,
        }
    }

    /// The leaf in words, given its fault in words.
    pub fn render_with(&self, cause: &str) -> (text: String)
        ensures
            text@ == self@.rendered(cause@),
    {
        let mut text = match self {
            IOError::WriteError { message, .. } => join("WriteIOError: '", message.as_str(), "'."),
            IOError::ReadError { message, .. } => join("ReadIOError: '", message.as_str(), "'."),
            IOError::FlushError { .. } => String::from_str("FlushIOError: Failed to flush."),
            IOError::OtherError { message, .. } => join("OtherIOError: '", message.as_str(), "'."),
        };
        text.append("\nCaused by: ");
        text.append(cause);
        text
    }

    /// The leaf in words, its fault described by the fault itself.
    pub fn render(&self) -> (text: String)
        ensures
            exists|cause: Seq<char>| text@ == self@.rendered(cause),
    {
        let cause = io_fault_text(self.source());
        self.render_with(cause.as_str())
    }
}

impl RequestError {
    /// The leaf in words, given its fault in words. A leaf without a fault
    /// makes no use of `cause`.
    pub fn render_with(&self, cause: &str) -> (text: String)
        ensures
            text@ == self@.rendered(cause@),
    {
        match self {
            RequestError::ClientBuilderError { .. } => join(
                "Failed to create reqwest client: '",
                cause,
                "'.",
            ),
            RequestError::HostNotMatch { input, message } => {
                let mut text = join(
                    "Host name: '",
                    input.as_str(),
                    "' does not match the expected host.\n",
                );
                text.append(message.as_str());
                text
            },
            RequestError::ParseURLError { url, .. } => {
                let mut text = join("Failed to parse URL: '", url.as_str(), "' because: '");
                text.append(cause);
                text.append("'.");
                text
            },
            RequestError::RequestFailed { url, method, .. } => {
                let mut text = join(
                    "Error while making request to: '",
                    url.as_str(),
                    "' using method: '",
                );
                text.append(method.as_str());
                text.append("' with error: '");
                text.append(cause);
                text.append("'");
                text
            },
        }
    }

    /// The leaf in words, its fault described by the fault itself: where
    /// the leaf keeps a fault, the text holds the fault's own words.
    pub fn render(&self) -> (text: String)
        ensures
            text@ == self@.rendered(self@.cause_words()),
            self@.cause() is Some ==> occurs_in(self@.cause_words(), text@),
    {
        proof {
            if self@.cause() is Some {
                lemma_request_quotes_cause(self@, self@.cause_words());
            }
        }
        let cause = self.cause_text();
        self.render_with(cause.as_str())
    }

    /// The leaf's fault in its own words; empty where the leaf keeps none.
    fn cause_text(&self) -> (text: String)
        ensures
            text@ == self@.cause_words(),
            self@.cause() is None ==> text@ == Seq::<char>::empty(),
    {
        match self {
            RequestError::ClientBuilderError { source } => http_fault_text(source),
            RequestError::HostNotMatch { .. } => String::new(),
            RequestError::ParseURLError { source, .. } => url_fault_text(source),
            RequestError::RequestFailed { source, .. } => http_fault_text(source),
        }
    }
}

impl ShawtyError {
    /// The whole chain in words, given the fault at its bottom in words. An
    /// error without a fault makes no use of `cause`.
    pub fn render_with(&self, cause: &str) -> (text: String)
        ensures
            text@ == self@.rendered(cause@),
    {
        match self {
            ShawtyError::ExampleError() => String::from_str("This is an example error!"),
            ShawtyError::WeirdError { message } => join("WeirdError: '", message.as_str(), "'.\n"),
            ShawtyError::Request(inner) => {
                let below = inner.render_with(cause);
                join("Failed to send a request.", "\nCaused by: ", below.as_str())
            },
            ShawtyError::IO(inner) => {
                let below = inner.render_with(cause);
                join("Operation failed, IO error occurred.", "\nCaused by: ", below.as_str())
            },
            ShawtyError::ExecuteCommandError { command, command_args, .. } => {
                let args = debug_list_text(command_args);
                let mut text = join(
                    "Error while executing command: '",
                    command.as_str(),
                    "':\nArgs '",
                );
                text.append(args.as_str());
                text.append("'.");
                text.append("\nCaused by: ");
                text.append(cause);
                text
            },
        }
    }

    /// The whole chain in words, the fault at its bottom described by the
    /// fault itself. This is what the error shows to a reader. For a
    /// request failure the words of the fault are known; those of an I/O
    /// fault depend on the platform, so of them it is only known that they
    /// stand where the cause belongs.
    pub fn render(&self) -> (text: String)
        ensures
            exists|cause: Seq<char>| text@ == self@.rendered(cause),
            self@ matches ShawtyErrorView::Request(inner) ==> text@ == self@.rendered(
                inner.cause_words(),
            ),
            self@ matches ShawtyErrorView::Request(inner) ==> (inner.cause() is Some ==> occurs_in(
                inner.cause_words(),
                text@,
            )),
            self@.cause() is None ==> text@ == self@.rendered(Seq::empty()),
    {
        proof {
            if let ShawtyErrorView::Request(inner) = self@ {
                if inner.cause() is Some {
                    lemma_rendered_quotes_cause(self@, inner.cause_words());
                }
            }
        }
        let cause = match self {
            ShawtyError::ExampleError() => String::new(),
            ShawtyError::WeirdError { .. } => String::new(),
            ShawtyError::Request(inner) => inner.cause_text(),
            ShawtyError::IO(inner) => io_fault_text(inner.source()),
            ShawtyError::ExecuteCommandError { error, .. } => io_fault_text(error),
        };
        self.render_with(cause.as_str())
    }
}

/// Wrapping an I/O leaf into the top-level error loses nothing: the leaf can
/// be read back unchanged, its fault is the fault of the whole, and two
/// wrapped values are equal only if the leaves were.
pub proof fn lemma_io_wrapping_is_lossless(leaf: IOError, other: IOError)
    ensures
        ShawtyError::from_spec(leaf)@ == ShawtyErrorView::IO(leaf@),
        ShawtyError::from_spec(leaf)@.cause() == Some(Cause::Io(leaf@.source())),
        ShawtyError::from_spec(leaf)@.context() == leaf@.context(),
        ShawtyError::from_spec(leaf)@ == ShawtyError::from_spec(other)@ ==> leaf@ == other@,
{
}

/// Wrapping a request leaf into the top-level error loses nothing: the leaf
/// can be read back unchanged, its fault is the fault of the whole, and two
/// wrapped values are equal only if the leaves were.
pub proof fn lemma_request_wrapping_is_lossless(leaf: RequestError, other: RequestError)
    ensures
        ShawtyError::from_spec(leaf)@ == ShawtyErrorView::Request(leaf@),
        ShawtyError::from_spec(leaf)@.cause() == leaf@.cause(),
        ShawtyError::from_spec(leaf)@.context() == leaf@.context(),
        ShawtyError::from_spec(leaf)@ == ShawtyError::from_spec(other)@ ==> leaf@ == other@,
{
}

/// Whatever words describe the fault at the bottom of an error, the
/// rendered chain holds them.
pub proof fn lemma_rendered_quotes_cause(error: ShawtyErrorView, description: Seq<char>)
    requires
        error.cause() is Some,
    ensures
        occurs_in(description, error.rendered(description)),
{
    let none = Seq::<char>::empty();
    match error {
        ShawtyErrorView::Request(inner) => {
            lemma_request_quotes_cause(inner, description);
            lemma_occurs_widens(
                description,
                inner.rendered(description),
                error.headline() + caused_by(),
                none,
            );
        },
        ShawtyErrorView::IO(inner) => {
            lemma_occurs_between(inner.headline() + caused_by(), description, none);
            lemma_occurs_widens(
                description,
                inner.rendered(description),
                error.headline() + caused_by(),
                none,
            );
        },
        ShawtyErrorView::ExecuteCommandError { .. } => {
            lemma_occurs_between(error.headline() + caused_by(), description, none);
        },
        _ => {},
    }
}

/// A request leaf that keeps a fault quotes the words that describe it.
pub proof fn lemma_request_quotes_cause(leaf: RequestErrorView, description: Seq<char>)
    requires
        leaf.cause() is Some,
    ensures
        occurs_in(description, leaf.rendered(description)),
{
    match leaf {
        RequestErrorView::ClientBuilderError { .. } => {
            lemma_occurs_between("Failed to create reqwest client: '"@, description, "'."@);
        },
        RequestErrorView::ParseURLError { url, .. } => {
            lemma_occurs_between(
                "Failed to parse URL: '"@ + url + "' because: '"@,
                description,
                "'."@,
            );
        },
        RequestErrorView::RequestFailed { url, method, .. } => {
            lemma_occurs_between(
                "Error while making request to: '"@ + url + "' using method: '"@ + method
                    + "' with error: '"@,
                description,
                "'"@,
            );
        },
        RequestErrorView::HostNotMatch { .. } => {},
    }
}

/// Where an error says what was being attempted, the rendered chain holds
/// those words, whatever words describe the fault.
pub proof fn lemma_rendered_quotes_context(error: ShawtyErrorView, description: Seq<char>)
    requires
        error.context() is Some,
    ensures
        occurs_in(error.context()->0, error.rendered(description)),
{
    let none = Seq::<char>::empty();
    let context = error.context()->0;
    match error {
        ShawtyErrorView::WeirdError { message } => {
            lemma_occurs_between("WeirdError: '"@, message, "'.\n"@);
        },
        ShawtyErrorView::Request(inner) => {
            match inner {
                RequestErrorView::HostNotMatch { input, message } => {
                    lemma_occurs_between(
                        "Host name: '"@,
                        input,
                        "' does not match the expected host.\n"@ + message,
                    );
                    assert(inner.rendered(description) =~= "Host name: '"@ + input + (
                    "' does not match the expected host.\n"@ + message));
                },
                RequestErrorView::ParseURLError { url, .. } => {
                    lemma_occurs_between(
                        "Failed to parse URL: '"@,
                        url,
                        "' because: '"@ + description + "'."@,
                    );
                    assert(inner.rendered(description) =~= "Failed to parse URL: '"@ + url + (
                    "' because: '"@ + description + "'."@));
                },
                RequestErrorView::RequestFailed { url, method, .. } => {
                    let rest = "' using method: '"@ + method + "' with error: '"@ + description
                        + "'"@;
                    lemma_occurs_between("Error while making request to: '"@, url, rest);
                    assert(inner.rendered(description) =~= "Error while making request to: '"@ + url
                        + rest);
                },
                RequestErrorView::ClientBuilderError { .. } => {},
            }
            lemma_occurs_widens(
                context,
                inner.rendered(description),
                error.headline() + caused_by(),
                none,
            );
        },
        ShawtyErrorView::IO(inner) => {
            let tag = match inner {
                IOErrorView::WriteError { .. } => "WriteIOError: '"@,
                IOErrorView::ReadError { .. } => "ReadIOError: '"@,
                _ => "OtherIOError: '"@,
            };
            let rest = "'."@ + caused_by() + description;
            lemma_occurs_between(tag, context, rest);
            assert(inner.rendered(description) =~= tag + context + rest);
            lemma_occurs_widens(
                context,
                inner.rendered(description),
                error.headline() + caused_by(),
                none,
            );
        },
        ShawtyErrorView::ExecuteCommandError { command, command_args, .. } => {
            let rest = "':\nArgs '"@ + debug_list(command_args) + "'."@ + caused_by()
                + description;
            lemma_occurs_between("Error while executing command: '"@, command, rest);
            assert(error.rendered(description) =~= "Error while executing command: '"@ + command
                + rest);
        },
        ShawtyErrorView::ExampleError => {},
    }
}

} // verus!
