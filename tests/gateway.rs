use zeroclaw::cli::{DEFAULT_HOST, DEFAULT_PORT};
use zeroclaw::http::{render_response, request_path, response_body, route_for, READ_WINDOW};
use zeroclaw::text::{decimal_string, is_space, parse_u16};
use zeroclaw::{escape_json, gateway_config, parse_flag_value, parse_port, respond, respond_to_text, usage, Route};

fn args(items: &[&str]) -> Vec<String> {
    items.iter().map(|s| s.to_string()).collect()
}

fn body_of(response: &str) -> &str {
    let at = response.find("\r\n\r\n").expect("blank line");
    &response[at + 4..]
}

fn content_length_of(response: &str) -> usize {
    let line = response
        .lines()
        .find(|l| l.starts_with("Content-Length: "))
        .expect("content length header");
    line["Content-Length: ".len()..].parse().expect("a number")
}

#[test]
fn probe_paths_answer_ok() {
    for path in ["/health", "/ready"] {
        let request = format!("GET {path} HTTP/1.1\r\nHost: x\r\n\r\n");
        let r = respond_to_text(&request, Some("postgres://db".to_string()));
        assert!(r.starts_with("HTTP/1.1 200 OK\r\n"));
        assert_eq!(body_of(&r), "ok\n");
        assert_eq!(
            r,
            "HTTP/1.1 200 OK\r\nContent-Type: text/plain; charset=utf-8\r\nContent-Length: 3\r\nConnection: close\r\n\r\nok\n"
        );
    }
}

#[test]
fn root_with_database_url_unset() {
    let r = respond_to_text("GET / HTTP/1.1\r\n\r\n", None);
    assert!(r.starts_with("HTTP/1.1 200 OK\r\nContent-Type: application/json; charset=utf-8\r\n"));
    assert_eq!(
        body_of(&r),
        "{\"service\":\"zeroclaw\",\"status\":\"ok\",\"database_url\":\"unset\"}\n"
    );
}

#[test]
fn root_with_database_url_escaped() {
    let r = respond_to_text("GET / HTTP/1.1\r\n\r\n", Some("a\"b\\c".to_string()));
    assert_eq!(
        body_of(&r),
        "{\"service\":\"zeroclaw\",\"status\":\"ok\",\"database_url\":\"a\\\"b\\\\c\"}\n"
    );
}

#[test]
fn unknown_path_not_found() {
    let r = respond_to_text("GET /foo HTTP/1.1\r\n\r\n", None);
    assert_eq!(
        r,
        "HTTP/1.1 404 Not Found\r\nContent-Type: application/json; charset=utf-8\r\nContent-Length: 22\r\nConnection: close\r\n\r\n{\"error\":\"not found\"}\n"
    );
}

#[test]
fn content_length_counts_bytes() {
    for (request, url) in [
        ("GET / HTTP/1.1\r\n", Some("caf\u{e9} \u{1f600}")),
        ("GET /health HTTP/1.1\r\n", None),
        ("GET /nope HTTP/1.1\r\n", None),
        ("GET / HTTP/1.1\r\n", None),
    ] {
        let r = respond_to_text(request, url.map(|u| u.to_string()));
        assert_eq!(content_length_of(&r), body_of(&r).len());
    }
    let r = respond_to_text("GET / HTTP/1.1\r\n", Some("\u{e9}".to_string()));
    assert_eq!(content_length_of(&r), 57);
}

#[test]
fn usage_for_missing_or_other_command() {
    assert!(gateway_config(&args(&[]), None).is_none());
    assert!(gateway_config(&args(&["serve", "--port", "1"]), None).is_none());
    assert!(gateway_config(&args(&["Gateway"]), None).is_none());
    assert_eq!(
        usage(),
        "Usage: zeroclaw gateway [--host <ip>] [--port <port>]\nExample: zeroclaw gateway --host 0.0.0.0 --port 8080"
    );
}

#[test]
fn port_from_environment() {
    let c = gateway_config(&args(&["gateway"]), Some("9999".to_string())).unwrap();
    assert_eq!(c.port, 9999);
    assert_eq!(c.host, "127.0.0.1");
    assert_eq!(c.address(), "127.0.0.1:9999");
}

#[test]
fn defaults_and_flags() {
    let c = gateway_config(&args(&["gateway"]), None).unwrap();
    assert_eq!(c.host, DEFAULT_HOST);
    assert_eq!(c.port, DEFAULT_PORT);
    assert_eq!(c.address(), "127.0.0.1:8080");
    let c = gateway_config(
        &args(&["gateway", "--host", "0.0.0.0", "--port", "3000"]),
        Some("9999".to_string()),
    )
    .unwrap();
    assert_eq!(c.address(), "0.0.0.0:3000");
    let c = gateway_config(&args(&["gateway", "--port", "0"]), None).unwrap();
    assert_eq!(c.address(), "127.0.0.1:0");
}

#[test]
fn invalid_port_falls_through() {
    assert_eq!(parse_port(&args(&["gateway", "--port", "x"]), Some("9999".to_string())), Some(9999));
    assert_eq!(parse_port(&args(&["gateway", "--port", "65536"]), Some("nope".to_string())), None);
    assert_eq!(parse_port(&args(&["gateway", "--port", "65535"]), None), Some(65535));
    assert_eq!(parse_port(&args(&["gateway", "--port"]), Some("70".to_string())), Some(70));
    assert_eq!(parse_port(&args(&["gateway"]), None), None);
}

#[test]
fn flag_value_lookup() {
    let a = args(&["gateway", "--host", "h1", "--host", "h2"]);
    assert_eq!(parse_flag_value(&a, "--host"), Some("h1".to_string()));
    assert_eq!(parse_flag_value(&a, "--port"), None);
    assert_eq!(parse_flag_value(&args(&["gateway", "--host"]), "--host"), None);
    assert_eq!(parse_flag_value(&args(&[]), "--host"), None);
    assert_eq!(parse_flag_value(&args(&["--host", "--port", "1"]), "--host"), Some("--port".to_string()));
    assert_eq!(parse_flag_value(&args(&["--host", "--port", "1"]), "--port"), Some("1".to_string()));
}

#[test]
fn u16_parsing_follows_std() {
    for s in ["0", "8080", "+80", "007", "65535", "65536", "", "+", "-1", " 1", "1 ", "99999999999999999999", "1a", "+-1"] {
        assert_eq!(parse_u16(s), s.parse::<u16>().ok(), "{s:?}");
    }
}

#[test]
fn escape_each_special_character() {
    assert_eq!(escape_json("\\\"\n\r\t"), "\\\\\\\"\\n\\r\\t");
    assert_eq!(escape_json("plain \u{e9}\u{1f600}"), "plain \u{e9}\u{1f600}");
    assert_eq!(escape_json("nul\u{0}bell\u{7}"), "nul\u{0}bell\u{7}");
    assert_eq!(escape_json(""), "");
}

#[test]
fn request_path_takes_second_word_of_first_line() {
    assert_eq!(request_path("GET /health HTTP/1.1\r\nHost: a\r\n"), "/health");
    assert_eq!(request_path("  GET\t /ready  "), "/ready");
    assert_eq!(request_path(""), "/");
    assert_eq!(request_path("GET"), "/");
    assert_eq!(request_path("GET\n/health"), "/");
    assert_eq!(request_path("\nGET /health"), "/");
    assert_eq!(request_path("GET\u{3000}/x\u{a0}y"), "/x");
    assert_eq!(request_path("GET /a /b"), "/a");
}

#[test]
fn routes_by_exact_path() {
    assert_eq!(route_for(&"/health".to_string()), Route::Probe);
    assert_eq!(route_for(&"/ready".to_string()), Route::Probe);
    assert_eq!(route_for(&"/".to_string()), Route::Service);
    assert_eq!(route_for(&"/health/".to_string()), Route::NotFound);
    assert_eq!(route_for(&"".to_string()), Route::NotFound);
    assert_eq!(Route::NotFound.status(), "404 Not Found");
    assert_eq!(Route::Probe.content_type(), "text/plain; charset=utf-8");
    assert_eq!(Route::Service.content_type(), "application/json; charset=utf-8");
}

#[test]
fn body_and_rendering() {
    assert_eq!(response_body(Route::Probe, "x"), "ok\n");
    assert_eq!(
        render_response(Route::Service, "u"),
        "HTTP/1.1 200 OK\r\nContent-Type: application/json; charset=utf-8\r\nContent-Length: 56\r\nConnection: close\r\n\r\n{\"service\":\"zeroclaw\",\"status\":\"ok\",\"database_url\":\"u\"}\n"
    );
}

#[test]
fn empty_read_gives_no_response() {
    assert_eq!(respond(b"", None), None);
}

#[test]
fn bytes_are_decoded_before_routing() {
    let r = respond(b"GET /ready HTTP/1.1\r\n\r\n", None).unwrap();
    assert_eq!(body_of(&r), "ok\n");
    let r = respond(b"GET /\xff HTTP/1.1\r\n", None).unwrap();
    assert!(r.starts_with("HTTP/1.1 404 Not Found\r\n"));
    let r = respond(b"\xff\xfe /health\r\n", None).unwrap();
    assert!(r.starts_with("HTTP/1.1 200 OK\r\n"));
    assert_eq!(READ_WINDOW, 8192);
}

#[test]
fn decimal_rendering() {
    assert_eq!(decimal_string(0), "0");
    assert_eq!(decimal_string(7), "7");
    assert_eq!(decimal_string(10), "10");
    assert_eq!(decimal_string(65535), "65535");
    assert_eq!(decimal_string(usize::MAX), usize::MAX.to_string());
}

#[test]
fn whitespace_classes() {
    for c in ['\t', '\n', '\u{b}', '\u{c}', '\r', ' ', '\u{85}', '\u{a0}', '\u{1680}', '\u{2000}', '\u{200a}', '\u{2028}', '\u{2029}', '\u{202f}', '\u{205f}', '\u{3000}'] {
        assert!(is_space(c), "{c:?}");
    }
    for c in ['a', '\u{0}', '\u{180e}', '\u{200b}', '\u{feff}', '/'] {
        assert!(!is_space(c), "{c:?}");
    }
    for v in 0u32..0x4000 {
        if let Some(c) = char::from_u32(v) {
            assert_eq!(is_space(c), c.is_whitespace(), "{v:x}");
        }
    }
}
