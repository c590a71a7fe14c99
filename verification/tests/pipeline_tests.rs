use fanbox_dl::client::{check_status, post_url, session_cookie};
use fanbox_dl::error::Error;
use fanbox_dl::json::JsonValue;
use fanbox_dl::model::{ListCreatorItem, Timestamp};
use fanbox_dl::pagination::{Paginator, PaginatorStep};
use fanbox_dl::parse::{decode_page_items, decode_page_urls, decode_post_response};
use fanbox_dl::render::{collect_lines, join_lines, plan_post, PostPlan};

fn item(id: &str) -> ListCreatorItem {
    ListCreatorItem { id: id.to_string() }
}

#[test]
fn paginator_yields_one_page_in_order() {
    let mut p = Paginator::new(vec!["https://example.test/page1".to_string()]);
    match p.poll() {
        PaginatorStep::FetchPage(url) => assert_eq!(url, "https://example.test/page1"),
        other => panic!("expected a page request, got {:?}", other),
    }
    p.supply_page(vec![item("A"), item("B")]);
    match p.poll() {
        PaginatorStep::Item(it) => assert_eq!(it.id, "A"),
        other => panic!("expected the first item, got {:?}", other),
    }
    match p.poll() {
        PaginatorStep::Item(it) => assert_eq!(it.id, "B"),
        other => panic!("expected the second item, got {:?}", other),
    }
    assert!(matches!(p.poll(), PaginatorStep::Finished));
}

#[test]
fn paginator_walks_pages_in_order_and_fetches_each_once() {
    let mut p = Paginator::new(vec!["p1".to_string(), "p2".to_string()]);
    let mut fetched: Vec<String> = Vec::new();
    let mut yielded: Vec<String> = Vec::new();
    loop {
        match p.poll() {
            PaginatorStep::FetchPage(url) => {
                fetched.push(url.clone());
                if url == "p1" {
                    p.supply_page(vec![item("A"), item("B")]);
                } else {
                    p.supply_page(vec![item("C")]);
                }
            },
            PaginatorStep::Item(it) => yielded.push(it.id),
            PaginatorStep::Finished => break,
        }
    }
    assert_eq!(fetched, vec!["p1", "p2"]);
    assert_eq!(yielded, vec!["A", "B", "C"]);
}

#[test]
fn paginator_with_empty_page_moves_on() {
    let mut p = Paginator::new(vec!["p1".to_string(), "p2".to_string()]);
    assert!(matches!(p.poll(), PaginatorStep::FetchPage(_)));
    p.supply_page(vec![]);
    match p.poll() {
        PaginatorStep::FetchPage(url) => assert_eq!(url, "p2"),
        other => panic!("expected the second page, got {:?}", other),
    }
    p.supply_page(vec![item("Z")]);
    match p.poll() {
        PaginatorStep::Item(it) => assert_eq!(it.id, "Z"),
        other => panic!("expected the item, got {:?}", other),
    }
    assert!(matches!(p.poll(), PaginatorStep::Finished));
}

#[test]
fn paginator_with_no_pages_finishes_at_once() {
    let mut p = Paginator::new(vec![]);
    assert!(matches!(p.poll(), PaginatorStep::Finished));
}

#[test]
fn check_status_accepts_exactly_2xx() {
    assert!(check_status("u", 200).is_ok());
    assert!(check_status("u", 204).is_ok());
    assert!(check_status("u", 299).is_ok());
    assert!(check_status("u", 199).is_err());
    assert!(check_status("u", 300).is_err());
    assert!(check_status("u", 404).is_err());
    assert!(check_status("u", 500).is_err());
}

#[test]
fn forbidden_post_fetch_names_the_request() {
    let url = "https://api.fanbox.cc/post.info?postId=X";
    match check_status(url, 403) {
        Err(Error::HttpStatusError { url: u, status }) => {
            assert_eq!(u, url);
            assert_eq!(status, 403);
            let e = Error::HttpStatusError { url: u, status };
            assert_eq!(
                e.message(),
                "fanbox returned error: status 403 for https://api.fanbox.cc/post.info?postId=X"
            );
        },
        other => panic!("a 403 must be a status error, got {:?}", other),
    }
}

#[test]
fn error_messages_name_the_phase() {
    let send = Error::HttpRequestError { detail: "connect timed out".to_string() };
    assert_eq!(send.message(), "failed to send request: connect timed out");
    let read = Error::HttpReadError { detail: "truncated body".to_string() };
    assert_eq!(read.message(), "failed to read response: truncated body");
    let io = Error::IoError { detail: "disk full".to_string() };
    assert_eq!(io.message(), "disk full");
}

#[test]
fn status_message_renders_extreme_codes() {
    let low = Error::HttpStatusError { url: "u".to_string(), status: 0 };
    assert_eq!(low.message(), "fanbox returned error: status 0 for u");
    let high = Error::HttpStatusError { url: "u".to_string(), status: 65535 };
    assert_eq!(high.message(), "fanbox returned error: status 65535 for u");
}

#[test]
fn session_cookie_formats_the_credential() {
    assert_eq!(session_cookie("abc123"), "SESSIONKEY=abc123;");
    assert_eq!(session_cookie(""), "SESSIONKEY=;");
}

#[test]
fn post_url_is_canonical() {
    assert_eq!(post_url("alice", "A"), "https://alice.fanbox.cc/posts/A");
}

#[test]
fn end_to_end_text_post_scenario() {
    let s = |x: &str| JsonValue::Str(x.to_string());
    let obj = |entries: Vec<(&str, JsonValue)>| {
        JsonValue::Obj(entries.into_iter().map(|(k, v)| (k.to_string(), v)).collect())
    };

    // The pagination index returns one page URL.
    let index = obj(vec![("body", JsonValue::Arr(vec![s("https://example.test/page1")]))]);
    let urls = decode_page_urls(&index).expect("index should decode");
    let mut paginator = Paginator::new(urls);
    let url = match paginator.poll() {
        PaginatorStep::FetchPage(url) => url,
        other => panic!("expected a page request, got {:?}", other),
    };
    assert_eq!(url, "https://example.test/page1");

    // That page returns the post ids A and B, in order.
    let page = obj(vec![(
        "body",
        obj(vec![(
            "items",
            JsonValue::Arr(vec![obj(vec![("id", s("A"))]), obj(vec![("id", s("B"))])]),
        )]),
    )]);
    paginator.supply_page(decode_page_items(&page).expect("page should decode"));
    let first = match paginator.poll() {
        PaginatorStep::Item(it) => it.id,
        other => panic!("expected an item, got {:?}", other),
    };
    assert_eq!(first, "A");

    // A resolves to a text post updated at 2024-01-01T00:00:00Z.
    let response = obj(vec![(
        "body",
        obj(vec![
            ("id", s("A")),
            ("title", s("Hello")),
            ("updatedDatetime", s("2024-01-01T00:00:00Z")),
            ("creatorId", s("alice")),
            ("type", s("text")),
            ("body", obj(vec![("text", s("hi there"))])),
        ]),
    )]);
    let post = decode_post_response(&response).expect("post should decode");
    match plan_post("alice", &post) {
        PostPlan::Render { dir_name, mtime, actions } => {
            assert_eq!(dir_name, "A");
            assert_eq!(mtime, Timestamp { secs: 1704067200, nanos: 0 });
            let content = join_lines(&collect_lines(&actions));
            assert_eq!(
                content,
                "<h1><a href='https://alice.fanbox.cc/posts/A'>Hello</a></h1>\n<p>hi there</p>"
            );
        },
        other => panic!("expected a rendered plan, got {:?}", other),
    }

    // B is processed next in the same run.
    let second = match paginator.poll() {
        PaginatorStep::Item(it) => it.id,
        other => panic!("expected the second item, got {:?}", other),
    };
    assert_eq!(second, "B");
    assert!(matches!(paginator.poll(), PaginatorStep::Finished));
}
