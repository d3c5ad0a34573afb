use shawty::error::{RequestError, ShawtyError};
use shawty::network::{
    create_client, get_request, post_request, send_to_discord_webhook, webhook_request_for,
    ClientSettings, Headers, HttpMethod, HttpRequest, ParsedUrl,
};

fn pair(name: &str, value: &str) -> (String, String) {
    (name.to_string(), value.to_string())
}

/// What stands for a response here: its status and its body.
#[derive(Debug, PartialEq)]
struct Reply {
    status: u16,
    body: String,
}

/// A service in memory that answers as the two test services do: a path
/// named after a method accepts that method only, with 405 for any other;
/// the third one reports the client's `User-Agent`.
struct Service {
    calls: usize,
}

fn send(
    service: &mut Service,
    settings: &ClientSettings,
    request: &HttpRequest,
) -> Result<Reply, reqwest::Error> {
    service.calls += 1;
    let url = url::Url::parse(&request.url).unwrap();
    let status = match (url.host_str(), url.path(), request.method) {
        (Some("httpbin.org"), "/get", HttpMethod::Get) => 200,
        (Some("httpbin.org"), "/post", HttpMethod::Post) => 200,
        (Some("httpbin.org"), _, _) => 405,
        (Some("api.bigdatacloud.net"), "/data/client-info", HttpMethod::Get) => 200,
        _ => 404,
    };
    let body = settings.user_agent.clone().unwrap_or_default();
    Ok(Reply { status, body })
}

fn builder_error() -> reqwest::Error {
    reqwest::blocking::Client::builder()
        .user_agent("two\nlines")
        .build()
        .unwrap_err()
}

#[test]
fn whats_my_user_agent() {
    let url = "https://api.bigdatacloud.net/data/client-info";
    let client = create_client(None, Some("BigData is good."));
    let mut service = Service { calls: 0 };

    let request = get_request(url);
    let respond = request
        .finish(send(&mut service, &client, &request))
        .unwrap();
    assert_eq!(
        respond.status, 200,
        "Get request got respond, but status code is not 200 OK!"
    );

    let respond = respond.body;
    println!("respond: {respond:?}");
    assert_eq!(respond, "BigData is good.");
}

#[test]
fn test_get_request() {
    let url = "https://httpbin.org/get";
    let client = create_client(None, None);
    let mut service = Service { calls: 0 };

    let request = post_request(url, None, None);
    let respond = request
        .finish(send(&mut service, &client, &request))
        .unwrap();
    assert_eq!(
        respond.status, 405,
        "Post on /get url should get a 405 (Method Not Allowed), but somehow it didn't!"
    );

    let request = get_request(url);
    let respond = request
        .finish(send(&mut service, &client, &request))
        .unwrap();
    assert_eq!(
        respond.status, 200,
        "Get request got respond, but status code is not 200 OK!"
    )
}

#[test]
fn test_post_request() {
    let url = "https://httpbin.org/post";
    let client = create_client(None, None);
    let mut service = Service { calls: 0 };
    let request = get_request(url);
    let respond = request
        .finish(send(&mut service, &client, &request))
        .unwrap();
    assert_eq!(
        respond.status, 405,
        "GET on /post url should get a 405 (Method Not Allowed), but somehow it didn't!"
    );

    let headers = Headers::new().insert("accept", "application/json");
    let request = post_request(url, None, Some(headers));
    assert_eq!(
        request.headers.pairs(),
        &vec![pair("accept", "application/json")]
    );
    let respond = request
        .finish(send(&mut service, &client, &request))
        .unwrap();

    assert_eq!(
        respond.status, 200,
        "Post request got respond, but status code is not 200 OK!"
    )
}

#[test]
fn client_settings_default_to_thirty_seconds() {
    let settings = create_client(None, None);
    assert_eq!(settings.timeout_secs, 30);
    assert_eq!(settings.user_agent, None);
    let settings = create_client(Some(5), Some("agent/1.0"));
    assert_eq!(settings.timeout_secs, 5);
    assert_eq!(settings.user_agent, Some("agent/1.0".to_string()));
    let settings = create_client(Some(0), Some(""));
    assert_eq!(settings.timeout_secs, 0);
    assert_eq!(settings.user_agent, Some(String::new()));
}

#[test]
fn a_client_that_was_built_is_handed_on() {
    let settings = create_client(Some(1), None);
    let built = reqwest::blocking::Client::builder()
        .timeout(std::time::Duration::from_secs(settings.timeout_secs))
        .build();
    assert!(settings.finish(built).is_ok());
}

#[test]
fn a_client_that_cannot_be_built_is_a_builder_failure() {
    let settings = create_client(None, Some("two\nlines"));
    let mut builder = reqwest::blocking::Client::builder()
        .timeout(std::time::Duration::from_secs(settings.timeout_secs));
    if let Some(agent) = &settings.user_agent {
        builder = builder.user_agent(agent.as_str());
    }
    match settings.finish(builder.build()) {
        Err(ShawtyError::Request(RequestError::ClientBuilderError { source })) => {
            assert!(source.is_builder());
        }
        other => panic!("not a builder failure: {other:?}"),
    }
}

#[test]
fn get_asks_for_a_bare_request() {
    let request = get_request("https://example.com/a?b=c");
    assert_eq!(request.method, HttpMethod::Get);
    assert_eq!(request.method.name(), "GET");
    assert_eq!(request.url, "https://example.com/a?b=c");
    assert_eq!(request.body, None);
    assert!(request.headers.pairs().is_empty());
}

#[test]
fn post_asks_for_body_and_headers_as_given() {
    let headers = Headers::new()
        .insert("accept", "text/plain")
        .insert("x-trace", "1");
    let request = post_request("https://example.com/", Some("hello".to_string()), Some(headers));
    assert_eq!(request.method, HttpMethod::Post);
    assert_eq!(request.method.name(), "POST");
    assert_eq!(request.url, "https://example.com/");
    assert_eq!(request.body, Some("hello".to_string()));
    assert_eq!(
        request.headers.pairs(),
        &vec![pair("accept", "text/plain"), pair("x-trace", "1")]
    );
    let bare = post_request("https://example.com/", None, None);
    assert_eq!(bare.body, None);
    assert!(bare.headers.pairs().is_empty());
}

#[test]
fn no_header_name_stands_twice() {
    let headers = Headers::new()
        .insert("accept", "text/plain")
        .insert("x-trace", "1")
        .insert("accept", "application/json")
        .insert("x-trace", "2")
        .insert("x-trace", "3");
    assert_eq!(
        headers.pairs(),
        &vec![pair("accept", "application/json"), pair("x-trace", "3")]
    );
    let request = post_request("https://example.com/", None, Some(headers));
    let mut names: Vec<&str> = request
        .headers
        .pairs()
        .iter()
        .map(|(name, _)| name.as_str())
        .collect();
    names.sort();
    names.dedup();
    assert_eq!(names.len(), request.headers.pairs().len());
}

#[test]
fn header_names_are_compared_character_by_character() {
    let headers = Headers::new()
        .insert("Accept", "a")
        .insert("accept", "b")
        .insert("", "c")
        .insert("", "d");
    assert_eq!(
        headers.pairs(),
        &vec![pair("Accept", "a"), pair("accept", "b"), pair("", "d")]
    );
    assert!(Headers::new().pairs().is_empty());
}

#[test]
fn a_status_is_no_failure() {
    let request = get_request("https://example.com/");
    for status in [200u16, 204, 301, 404, 405, 500, 503] {
        let reply = Reply {
            status,
            body: String::new(),
        };
        assert_eq!(request.finish(Ok(reply)).unwrap().status, status);
    }
}

#[test]
fn a_request_that_cannot_be_sent_is_a_request_failure() {
    let request = get_request("https://example.com/x");
    match request.finish::<Reply>(Err(builder_error())) {
        Err(ShawtyError::Request(RequestError::RequestFailed {
            url,
            method,
            source,
        })) => {
            assert_eq!(url, "https://example.com/x");
            assert_eq!(method, "GET");
            assert!(source.is_builder());
        }
        other => panic!("not a request failure: {other:?}"),
    }
    let request = post_request("https://example.com/y", None, None);
    match request.finish::<Reply>(Err(builder_error())) {
        Err(ShawtyError::Request(RequestError::RequestFailed { url, method, .. })) => {
            assert_eq!(url, "https://example.com/y");
            assert_eq!(method, "POST");
        }
        other => panic!("not a request failure: {other:?}"),
    }
}

#[test]
fn a_foreign_host_gets_no_request() {
    let mut service = Service { calls: 0 };
    let settings = create_client(None, None);
    let planned = send_to_discord_webhook("https://example.com/api/webhooks/1/token", "hi");
    let result = match planned {
        Ok(request) => request.finish(send(&mut service, &settings, &request)),
        Err(error) => Err(error),
    };
    match result {
        Err(ShawtyError::Request(RequestError::HostNotMatch { input, message })) => {
            assert_eq!(input, "https://example.com/api/webhooks/1/token");
            assert_eq!(
                message,
                "`send_to_discord_webhook` only accept Discord webhook url."
            );
        }
        other => panic!("not a host mismatch: {other:?}"),
    }
    assert_eq!(service.calls, 0);
}

#[test]
fn a_host_mismatch_reports_the_string_as_it_was_passed() {
    for url in ["https://example.com", "HTTPS://Example.COM", "https://example.com:443/a/../b"] {
        match send_to_discord_webhook(url, "hi") {
            Err(ShawtyError::Request(RequestError::HostNotMatch { input, message })) => {
                assert_eq!(input, url);
                assert_eq!(
                    message,
                    "`send_to_discord_webhook` only accept Discord webhook url."
                );
            }
            other => panic!("not a host mismatch: {other:?}"),
        }
    }
}

#[test]
fn the_host_is_judged_as_the_parser_reads_it() {
    assert!(send_to_discord_webhook("HTTPS://PTB.Discord.COM/x", "m").is_ok());
    assert!(send_to_discord_webhook("https://user:pw@discord.com:8443/x", "m").is_ok());
    assert!(send_to_discord_webhook("https://example.org/discord.com", "m").is_err());
    assert!(send_to_discord_webhook("https://example.org/?host=discord.com", "m").is_err());
}

#[test]
fn a_url_without_host_gets_no_request() {
    for url in ["data:text/plain,Stuff", "unix:/run/foo.socket", "mailto:a@discord.com"] {
        match send_to_discord_webhook(url, "hi") {
            Err(ShawtyError::Request(RequestError::HostNotMatch { input, .. })) => {
                assert_eq!(input, url);
            }
            other => panic!("not a host mismatch: {other:?}"),
        }
    }
}

#[test]
fn a_string_that_is_no_url_is_a_parse_failure() {
    let mut service = Service { calls: 0 };
    let settings = create_client(None, None);
    let planned = send_to_discord_webhook("not a url", "hi");
    let result = match planned {
        Ok(request) => request.finish(send(&mut service, &settings, &request)),
        Err(error) => Err(error),
    };
    match result {
        Err(ShawtyError::Request(RequestError::ParseURLError { url, source })) => {
            assert_eq!(url, "not a url");
            assert_eq!(source, url::ParseError::RelativeUrlWithoutBase);
        }
        other => panic!("not a parse failure: {other:?}"),
    }
    assert_eq!(service.calls, 0);
}

#[test]
fn a_parse_failure_comes_before_the_host_check() {
    match send_to_discord_webhook("discord.com/api/webhooks/1/token", "hi") {
        Err(ShawtyError::Request(RequestError::ParseURLError { url, .. })) => {
            assert_eq!(url, "discord.com/api/webhooks/1/token");
        }
        other => panic!("not a parse failure: {other:?}"),
    }
    match send_to_discord_webhook("https://", "hi") {
        Err(ShawtyError::Request(RequestError::ParseURLError { source, .. })) => {
            assert_eq!(source, url::ParseError::EmptyHost);
        }
        other => panic!("not a parse failure: {other:?}"),
    }
}

#[test]
fn a_discord_webhook_gets_a_json_post() {
    let url = "https://discord.com/api/webhooks/1/token";
    let request = send_to_discord_webhook(url, "deploy done").unwrap();
    assert_eq!(request.method, HttpMethod::Post);
    assert_eq!(request.url, url);
    assert_eq!(request.body, Some("{\"content\": \"deploy done\"}".to_string()));
    assert_eq!(
        request.headers.pairs(),
        &vec![pair("Content-Type", "application/json")]
    );
}

#[test]
fn a_webhook_request_keeps_the_url_as_written() {
    let url = "HTTPS://PTB.Discord.com/api/webhooks/1/token";
    let request = send_to_discord_webhook(url, "").unwrap();
    assert_eq!(request.url, url);
    assert_eq!(request.body, Some("{\"content\": \"\"}".to_string()));
}

#[test]
fn the_message_is_embedded_without_escapes() {
    let request =
        send_to_discord_webhook("https://discord.com/api/webhooks/1/token", "say \"hi\"\n")
            .unwrap();
    assert_eq!(
        request.body,
        Some("{\"content\": \"say \"hi\"\n\"}".to_string())
    );
}

#[test]
fn any_host_that_ends_in_the_domain_is_accepted() {
    assert!(send_to_discord_webhook("https://canary.discord.com/x", "m").is_ok());
    assert!(send_to_discord_webhook("https://notdiscord.com/x", "m").is_ok());
    assert!(send_to_discord_webhook("https://discord.com.example.org/x", "m").is_err());
    assert!(send_to_discord_webhook("https://discord.co/x", "m").is_err());
}

#[test]
fn the_decision_rests_on_what_the_parser_gave() {
    let parsed = ParsedUrl {
        host: Some("discord.com".to_string()),
    };
    let request = webhook_request_for(Ok(parsed), "https://discord.com/hook", "m").unwrap();
    assert_eq!(request.url, "https://discord.com/hook");

    let parsed = ParsedUrl { host: None };
    match webhook_request_for(Ok(parsed), "as written", "m") {
        Err(ShawtyError::Request(RequestError::HostNotMatch { input, .. })) => {
            assert_eq!(input, "as written");
        }
        other => panic!("not a host mismatch: {other:?}"),
    }

    let fault = url::ParseError::InvalidPort;
    match webhook_request_for(Err(fault), "https://discord.com:x/", "m") {
        Err(ShawtyError::Request(RequestError::ParseURLError { url, source })) => {
            assert_eq!(url, "https://discord.com:x/");
            assert_eq!(source, url::ParseError::InvalidPort);
        }
        other => panic!("not a parse failure: {other:?}"),
    }
}
