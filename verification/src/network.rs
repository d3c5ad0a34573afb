//! The network primitives: the settings of an HTTP client, GET and POST
//! requests, and a message for a Discord webhook.
//!
//! The library builds no client and sends nothing. It says which client to
//! build and which request to send; the caller does so and hands back what
//! came of it. A response is a value of the caller's: whatever its status,
//! it is passed on as it is. Only a fault of building or sending is a
//! failure.

use crate::error::{RequestError, RequestErrorView, ShawtyError, ShawtyErrorView};
use crate::text::{ends_with, join, same_text};
use vstd::prelude::*;

verus! {

/// What `url::Url::parse` makes of a string: the host of the URL it found,
/// where that URL has one, or the reason why the string is no absolute URL.
pub uninterp spec fn url_parse(input: Seq<char>) -> Result<ParsedUrlView, url::ParseError>;

/// The settings of an HTTP client.
#[derive(Debug, Clone, PartialEq, Eq)]
pub struct ClientSettings {
    /// After how many seconds a request is given up.
    pub timeout_secs: u64,
    /// The `User-Agent` that the client sends, where one is set.
    pub user_agent: Option<String>,
}

/// The mathematical value of a [`ClientSettings`].
pub struct ClientSettingsView {
    pub timeout_secs: u64,
    pub user_agent: Option<Seq<char>>,
}

impl View for ClientSettings {
    type V = ClientSettingsView;

    open spec fn view(&self) -> ClientSettingsView {
        ClientSettingsView {
            timeout_secs: self.timeout_secs,
            user_agent: self.user_agent.deep_view(),
        }
    }
}

/// The method of a request.
#[derive(Debug, Clone, Copy, PartialEq, Eq, Structural)]
pub enum HttpMethod {
    Get,
    Post,
}

impl HttpMethod {
    /// The method's name as it stands in a request and in a failure.
    pub open spec fn name_text(self) -> Seq<char> {
        match self {
            HttpMethod::Get => "GET"@,
            HttpMethod::Post => "POST"@,
        }
    }

    /// The method's name as it stands in a request and in a failure.
    pub fn name(&self) -> (name: &'static str)
        ensures
            name@ == self.name_text(),
    {
        match self {
            HttpMethod::Get => "GET",
            HttpMethod::Post => "POST",
        }
    }
}

/// No name stands in two of the pairs.
pub open spec fn distinct_names(pairs: Seq<(Seq<char>, Seq<char>)>) -> bool {
    forall|i: int, j: int| 0 <= i < j < pairs.len() ==> pairs[i].0 != pairs[j].0
}

/// Some pair holds the name.
pub open spec fn has_name(pairs: Seq<(Seq<char>, Seq<char>)>, name: Seq<char>) -> bool {
    exists|i: int| 0 <= i < pairs.len() && (#[trigger] pairs[i]).0 == name
}

/// The pairs after `name` was set to `value`: a name that stands there
/// already keeps its place and gets the new value, a new name goes to the
/// end.
pub open spec fn with_header(
    pairs: Seq<(Seq<char>, Seq<char>)>,
    name: Seq<char>,
    value: Seq<char>,
) -> Seq<(Seq<char>, Seq<char>)> {
    if has_name(pairs, name) {
        pairs.map_values(
            |pair: (Seq<char>, Seq<char>)|
                if pair.0 == name {
                    (name, value)
                } else {
                    pair
                },
        )
    } else {
        pairs.push((name, value))
    }
}

/// Setting a header does what an insert into a map does: no name stands
/// twice afterwards, the name that was set has the new value, every other
/// pair is where and what it was, and the list grows by one exactly if the
/// name is new.
pub proof fn lemma_with_header_is_a_map_insert(
    pairs: Seq<(Seq<char>, Seq<char>)>,
    name: Seq<char>,
    value: Seq<char>,
)
    requires
        distinct_names(pairs),
    ensures
        distinct_names(with_header(pairs, name, value)),
        has_name(with_header(pairs, name, value), name),
        forall|i: int|
            0 <= i < with_header(pairs, name, value).len() && (#[trigger] with_header(
                pairs,
                name,
                value,
            )[i]).0 == name ==> with_header(pairs, name, value)[i].1 == value,
        forall|i: int|
            0 <= i < pairs.len() && (#[trigger] pairs[i]).0 != name ==> with_header(
                pairs,
                name,
                value,
            )[i] == pairs[i],
        with_header(pairs, name, value).len() == pairs.len() + if has_name(pairs, name) {
            0int
        } else {
            1int
        },
{
    let set = with_header(pairs, name, value);
    if has_name(pairs, name) {
        let at = choose|i: int| 0 <= i < pairs.len() && (#[trigger] pairs[i]).0 == name;
        assert(set[at].0 == name);
        assert forall|a: int, b: int| 0 <= a < b < set.len() implies set[a].0 != set[b].0 by {
            assert(set[a].0 == pairs[a].0 && set[b].0 == pairs[b].0);
        }
    } else {
        assert(set[pairs.len() as int].0 == name);
        assert forall|a: int, b: int| 0 <= a < b < set.len() implies set[a].0 != set[b].0 by {
            if b < pairs.len() {
                assert(set[a] == pairs[a] && set[b] == pairs[b]);
            } else {
                assert(set[a] == pairs[a]);
            }
        }
    }
}

/// The headers of a request, as a map from names to values has them: no
/// name stands twice, and setting a name again replaces its value. The
/// names keep the order in which they were first set. Names are compared
/// character by character.
#[derive(Debug, PartialEq, Eq)]
pub struct Headers {
    pairs: Vec<(String, String)>,
}

impl View for Headers {
    type V = Seq<(Seq<char>, Seq<char>)>;

    closed spec fn view(&self) -> Seq<(Seq<char>, Seq<char>)> {
        self.pairs.deep_view()
    }
}

impl Headers {
    #[verifier::type_invariant]
    spec fn names_are_distinct(&self) -> bool {
        distinct_names(self.pairs.deep_view())
    }

    /// No headers.
    pub fn new() -> (headers: Headers)
        ensures
            headers@ == Seq::<(Seq<char>, Seq<char>)>::empty(),
    {
        Headers { pairs: Vec::new() }
    }

    /// These headers with `name` set to `value`.
    pub fn insert(self, name: &str, value: &str) -> (headers: Headers)
        ensures
            headers@ == with_header(self@, name@, value@),
            distinct_names(headers@),
    {
        proof {
            use_type_invariant(&self);
            lemma_with_header_is_a_map_insert(self@, name@, value@);
        }
        let ghost before = self.pairs.deep_view();
        let mut pairs = self.pairs;
        let n = pairs.len();
        let mut i: usize = 0;
        while i < n
            invariant
                n == pairs.len(),
                i <= n,
                pairs.deep_view() == before,
                self@ == before,
                distinct_names(before),
                distinct_names(with_header(before, name@, value@)),
                forall|k: int| 0 <= k < i ==> (#[trigger] before[k]).0 != name@,
            decreases n - i,
        {
            if same_text(pairs[i].0.as_str(), name) {
                let ghost kept = pairs@;
                pairs.set(i, (String::from_str(name), String::from_str(value)));
                proof {
                    let after = pairs.deep_view();
                    let wanted = with_header(before, name@, value@);
                    assert(before[i as int] == kept[i as int].deep_view());
                    assert forall|k: int| 0 <= k < after.len() implies after[k] == wanted[k] by {
                        if k != i {
                            assert(pairs@[k] == kept[k]);
                            assert(before[k] == kept[k].deep_view());
                            assert(before[k].0 != before[i as int].0);
                        }
                    }
                    assert(after =~= wanted);
                }
                return Headers { pairs };
            }
            i = i + 1;
        }
        pairs.push((String::from_str(name), String::from_str(value)));
        proof {
            assert(!has_name(before, name@));
            assert(pairs.deep_view() =~= before.push((name@, value@)));
        }
        Headers { pairs }
    }

    /// The pairs of name and value, in the order in which the names were
    /// first set. No name stands twice.
    pub fn pairs(&self) -> (pairs: &Vec<(String, String)>)
        ensures
            pairs.deep_view() == self@,
            distinct_names(self@),
    {
        proof {
            use_type_invariant(self);
        }
        &self.pairs
    }
}

/// A request to be sent.
#[derive(Debug, PartialEq, Eq)]
pub struct HttpRequest {
    pub method: HttpMethod,
    /// The URL, as the caller wrote it.
    pub url: String,
    /// The body, where the request has one.
    pub body: Option<String>,
    /// The headers to set before sending.
    pub headers: Headers,
}

/// The mathematical value of an [`HttpRequest`].
pub struct HttpRequestView {
    pub method: HttpMethod,
    pub url: Seq<char>,
    pub body: Option<Seq<char>>,
    pub headers: Seq<(Seq<char>, Seq<char>)>,
}

impl View for HttpRequest {
    type V = HttpRequestView;

    open spec fn view(&self) -> HttpRequestView {
        HttpRequestView {
            method: self.method,
            url: self.url@,
            body: self.body.deep_view(),
            headers: self.headers@,
        }
    }
}

/// What the webhook primitive reads of a parsed URL.
#[derive(Debug, Clone, PartialEq, Eq)]
pub struct ParsedUrl {
    /// The host, where the URL has one.
    pub host: Option<String>,
}

/// The mathematical value of a [`ParsedUrl`].
pub struct ParsedUrlView {
    pub host: Option<Seq<char>>,
}

impl View for ParsedUrl {
    type V = ParsedUrlView;

    open spec fn view(&self) -> ParsedUrlView {
        ParsedUrlView { host: self.host.deep_view() }
    }
}

/// The view of what a parse gave.
pub open spec fn parsed_view(parsed: Result<ParsedUrl, url::ParseError>) -> Result<
    ParsedUrlView,
    url::ParseError,
> {
    match parsed {
        Ok(url) => Ok(url@),
        Err(fault) => Err(fault),
    }
}

/// The view of a request that may have been refused.
pub open spec fn planned_view(planned: Result<HttpRequest, ShawtyError>) -> Result<
    HttpRequestView,
    ShawtyErrorView,
> {
    match planned {
        Ok(request) => Ok(request@),
        Err(error) => Err(error@),
    }
}

/// `url::Url::parse`, followed by `Url::host_str` on what it found. The
/// outcome depends on the string alone; it is known to contracts as
/// [`url_parse`] of the string.
#[verifier::external_body]
fn parse_url(input: &str) -> (parsed: Result<ParsedUrl, url::ParseError>)
    ensures
        parsed_view(parsed) == url_parse(input@),
{
    match url::Url::parse(input) {
        Ok(url) => Ok(
            ParsedUrl {
                host: match url.host_str() {
                    Some(host) => Some(host.to_string()),
                    None => None,
                },
            },
        ),
        Err(fault) => Err(fault),
    }
}

/// Create a client: says which client to build. Without a timeout, a
/// request is given up after 30 seconds.
pub fn create_client(timeout_secs: Option<u64>, user_agent: Option<&str>) -> (settings:
    ClientSettings)
    ensures
        settings@ == (ClientSettingsView {
            timeout_secs: match timeout_secs {
                Some(seconds) => seconds,
                None => 30,
            },
            user_agent: match user_agent {
                Some(agent) => Some(agent@),
                None => None,
            },
        }),
{
    ClientSettings {
        timeout_secs: match timeout_secs {
            Some(seconds) => seconds,
            None => 30,
        },
        user_agent: match user_agent {
            Some(agent) => Some(String::from_str(agent)),
            None => None,
        },
    }
}

impl ClientSettings {
    /// Takes what building the client gave, and returns the client, or the
    /// failure that keeps the fault.
    pub fn finish<C>(&self, built: Result<C, reqwest::Error>) -> (result: Result<C, ShawtyError>)
        ensures
            match built {
                Ok(client) => result matches Ok(same) && same == client,
                Err(fault) => result matches Err(error) && error@ == ShawtyErrorView::Request(
                    RequestErrorView::ClientBuilderError { source: fault },
                ),
            },
    {
        match built {
            Ok(client) => Ok(client),
            Err(fault) => Err(ShawtyError::from(RequestError::ClientBuilderError { source: fault })),
        }
    }
}

/// GET: asks for a request to `url`, without body or headers.
pub fn get_request(url: &str) -> (request: HttpRequest)
    ensures
        request@ == (HttpRequestView {
            method: HttpMethod::Get,
            url: url@,
            body: None,
            headers: Seq::empty(),
        }),
{
    HttpRequest {
        method: HttpMethod::Get,
        url: String::from_str(url),
        body: None,
        headers: Headers::new(),
    }
}

/// POST: asks for a request to `url`, with the body and the headers that
/// are given. No header name stands twice in the request.
pub fn post_request(url: &str, body: Option<String>, header: Option<Headers>) -> (request:
    HttpRequest)
    ensures
        request@ == (HttpRequestView {
            method: HttpMethod::Post,
            url: url@,
            body: body.deep_view(),
            headers: match header {
                Some(headers) => headers@,
                None => Seq::empty(),
            },
        }),
        distinct_names(request@.headers),
{
    let headers = match header {
        Some(headers) => headers,
        None => Headers::new(),
    };
    proof {
        use_type_invariant(&headers);
    }
    HttpRequest { method: HttpMethod::Post, url: String::from_str(url), body, headers }
}

impl HttpRequest {
    /// Takes what sending the request gave, and returns the response as it
    /// is, whatever its status, or the failure that keeps the fault, with
    /// the URL and the method's name.
    pub fn finish<R>(&self, sent: Result<R, reqwest::Error>) -> (result: Result<R, ShawtyError>)
        ensures
            match sent {
                Ok(response) => result matches Ok(same) && same == response,
                Err(fault) => result matches Err(error) && error@ == ShawtyErrorView::Request(
                    RequestErrorView::RequestFailed {
                        url: self@.url,
                        method: self@.method.name_text(),
                        source: fault,
                    },
                ),
            },
    {
        match sent {
            Ok(response) => Ok(response),
            Err(fault) => Err(
                ShawtyError::from(
                    RequestError::RequestFailed {
                        url: self.url.clone(),
                        method: String::from_str(self.method.name()),
                        source: fault,
                    },
                ),
            ),
        }
    }
}

/// Whether a host is one of Discord's: it ends in `discord.com`.
pub open spec fn is_discord_host(host: Option<Seq<char>>) -> bool {
    host matches Some(name) && "discord.com"@.is_suffix_of(name)
}

/// What the webhook primitive decides once the URL went through the
/// parser. A string that is no URL is refused as such. A URL without host,
/// or with a host that does not end in `discord.com`, is refused with the
/// string that the caller passed, as it was passed. Any other gets a POST
/// to that string, of a JSON object whose one field, `content`, holds the
/// message. The message is not escaped: a quote, a backslash or a line
/// break in it stands in the body as it is, and the body is then no JSON.
pub open spec fn webhook_request(
    parsed: Result<ParsedUrlView, url::ParseError>,
    webhook_url: Seq<char>,
    message: Seq<char>,
) -> Result<HttpRequestView, ShawtyErrorView> {
    match parsed {
        Err(fault) => Err(
            ShawtyErrorView::Request(
                RequestErrorView::ParseURLError { url: webhook_url, source: fault },
            ),
        ),
        Ok(url) => if is_discord_host(url.host) {
            Ok(
                HttpRequestView {
                    method: HttpMethod::Post,
                    url: webhook_url,
                    body: Some("{\"content\": \""@ + message + "\"}"@),
                    headers: seq![("Content-Type"@, "application/json"@)],
                },
            )
        } else {
            Err(
                ShawtyErrorView::Request(
                    RequestErrorView::HostNotMatch {
                        input: webhook_url,
                        message: "`send_to_discord_webhook` only accept Discord webhook url."@,
                    },
                ),
            )
        },
    }
}

/// Decides on a webhook message once the URL went through the parser:
/// the request to send, or the refusal.
pub fn webhook_request_for(
    parsed: Result<ParsedUrl, url::ParseError>,
    webhook_url: &str,
    message: &str,
) -> (planned: Result<HttpRequest, ShawtyError>)
    ensures
        planned_view(planned) == webhook_request(parsed_view(parsed), webhook_url@, message@),
{
    match parsed {
        Err(fault) => Err(
            ShawtyError::from(
                RequestError::ParseURLError { url: String::from_str(webhook_url), source: fault },
            ),
        ),
        Ok(url) => {
            let accepted = match &url.host {
                Some(host) => ends_with(host.as_str(), "discord.com"),
                None => false,
            };
            if accepted {
                let payload = join("{\"content\": \"", message, "\"}");
                let headers = Headers::new().insert("Content-Type", "application/json");
                Ok(post_request(webhook_url, Some(payload), Some(headers)))
            } else {
                Err(
                    ShawtyError::from(
                        RequestError::HostNotMatch {
                            input: String::from_str(webhook_url),
                            message: String::from_str(
                                "`send_to_discord_webhook` only accept Discord webhook url.",
                            ),
                        },
                    ),
                )
            }
        },
    }
}

/// Send a message to a Discord webhook: says which request to send, or
/// refuses the URL. Where it refuses, there is no request, and so nothing
/// to send.
pub fn send_to_discord_webhook(webhook_url: &str, message: &str) -> (planned: Result<
    HttpRequest,
    ShawtyError,
>)
    ensures
        planned_view(planned) == webhook_request(url_parse(webhook_url@), webhook_url@, message@),
{
    webhook_request_for(parse_url(webhook_url), webhook_url, message)
}

/// A string that is no URL is refused as such, whatever host it may seem
/// to name.
pub proof fn lemma_unparsable_url_is_refused(
    fault: url::ParseError,
    webhook_url: Seq<char>,
    message: Seq<char>,
)
    ensures
        webhook_request(Err(fault), webhook_url, message) == Err::<
            HttpRequestView,
            ShawtyErrorView,
        >(
            ShawtyErrorView::Request(
                RequestErrorView::ParseURLError { url: webhook_url, source: fault },
            ),
        ),
{
}

/// A URL gets a request exactly if its host ends in `discord.com`. For any
/// other URL, and for one without host, the result is the refusal, which
/// holds no request and reports the string that the caller passed.
pub proof fn lemma_only_discord_hosts_get_a_request(
    url: ParsedUrlView,
    webhook_url: Seq<char>,
    message: Seq<char>,
)
    ensures
        webhook_request(Ok(url), webhook_url, message) is Ok <==> is_discord_host(url.host),
        !is_discord_host(url.host) ==> webhook_request(Ok(url), webhook_url, message) == Err::<
            HttpRequestView,
            ShawtyErrorView,
        >(
            ShawtyErrorView::Request(
                RequestErrorView::HostNotMatch {
                    input: webhook_url,
                    message: "`send_to_discord_webhook` only accept Discord webhook url."@,
                },
            ),
        ),
{
}

} // verus!
