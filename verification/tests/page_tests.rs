use http_app::page::{index_html, templated, INDEX_MESSAGE, PAGE_HEAD, PAGE_TAIL};
use http_app::request::http_get_request;

fn formatted_page(content: &str) -> String {
    format!(
        r#"
<!DOCTYPE html>
<html>
    <head>
        <meta charset="utf-8">
        <title>esp-rs web server</title>
    </head>
    <body>
        {}
    </body>
</html>
"#,
        content
    )
}

#[test]
fn templated_matches_formatted_page() {
    for c in ["", "hello", "<p>temp: 23.50</p>"] {
        assert_eq!(templated(c), formatted_page(c));
    }
}

#[test]
fn templated_wraps_content() {
    let page = templated("abc");
    assert!(page.starts_with(PAGE_HEAD));
    assert!(page.ends_with(PAGE_TAIL));
    assert_eq!(&page[PAGE_HEAD.len()..page.len() - PAGE_TAIL.len()], "abc");
}

#[test]
fn index_page_asks_for_posts() {
    assert_eq!(index_html(), formatted_page("Please post sensor value to /sensor"));
    assert_eq!(index_html(), templated(INDEX_MESSAGE));
}

#[test]
fn get_request_names_host() {
    assert_eq!(
        http_get_request("192.168.0.10:8080"),
        "GET / HTTP/1.1\r\nHost: 192.168.0.10:8080\r\n\r\n"
    );
    let host = "example.com";
    assert_eq!(
        http_get_request(host),
        format!("GET / HTTP/1.1\r\nHost: {}\r\n\r\n", host)
    );
}
