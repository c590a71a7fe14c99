use fanbox_dl::json::JsonValue;
use fanbox_dl::model::{ArticleBlock, Embed, PostBody, Timestamp, UrlEmbed};
use fanbox_dl::parse::{
    decode_post_response, parse_page_items, parse_page_urls, parse_post, parse_post_response,
};
use fanbox_dl::error::Error;

fn s(x: &str) -> JsonValue {
    JsonValue::Str(x.to_string())
}

fn obj(entries: Vec<(&str, JsonValue)>) -> JsonValue {
    JsonValue::Obj(entries.into_iter().map(|(k, v)| (k.to_string(), v)).collect())
}

fn info_fields() -> Vec<(&'static str, JsonValue)> {
    vec![
        ("id", s("A")),
        ("title", s("Hello")),
        ("updatedDatetime", s("2024-01-01T00:00:00Z")),
        ("creatorId", s("alice")),
    ]
}

#[test]
fn text_post_parses() {
    let mut fields = info_fields();
    fields.push(("type", s("text")));
    fields.push(("body", obj(vec![("text", s("hi there"))])));
    let post = parse_post(&obj(fields)).expect("text post should parse");
    assert_eq!(post.info.id, "A");
    assert_eq!(post.info.title, "Hello");
    assert_eq!(post.info.creator_id, "alice");
    assert_eq!(post.info.cover_image_url, None);
    assert_eq!(post.info.updated_datetime, Timestamp { secs: 1704067200, nanos: 0 });
    match post.body {
        Some(PostBody::Text(t)) => assert_eq!(t.body.text, "hi there"),
        other => panic!("expected a text body, got {:?}", other),
    }
}

#[test]
fn subsecond_precision_is_preserved() {
    let mut fields = info_fields();
    fields[2] = ("updatedDatetime", s("2024-01-02T03:04:05.123456789Z"));
    let post = parse_post(&obj(fields)).expect("post should parse");
    assert_eq!(
        post.info.updated_datetime,
        Timestamp { secs: 1704164645, nanos: 123456789 }
    );
}

#[test]
fn unknown_body_tag_is_tolerated() {
    let mut fields = info_fields();
    fields.push(("type", s("hologram")));
    let post = parse_post(&obj(fields)).expect("unknown tag must not fail the post");
    assert!(matches!(post.body, Some(PostBody::Unknown)));
}

#[test]
fn missing_type_means_no_body() {
    let post = parse_post(&obj(info_fields())).expect("post without body should parse");
    assert!(post.body.is_none());
}

#[test]
fn missing_title_fails() {
    let fields = vec![
        ("id", s("A")),
        ("updatedDatetime", s("2024-01-01T00:00:00Z")),
        ("creatorId", s("alice")),
    ];
    assert!(parse_post(&obj(fields)).is_none());
}

#[test]
fn bad_datetime_fails() {
    let mut fields = info_fields();
    fields[2] = ("updatedDatetime", s("yesterday"));
    assert!(parse_post(&obj(fields)).is_none());
}

#[test]
fn cover_image_url_variants() {
    let mut with_null = info_fields();
    with_null.push(("coverImageUrl", JsonValue::Null));
    assert_eq!(parse_post(&obj(with_null)).unwrap().info.cover_image_url, None);

    let mut with_url = info_fields();
    with_url.push(("coverImageUrl", s("https://example.test/c.jpg")));
    assert_eq!(
        parse_post(&obj(with_url)).unwrap().info.cover_image_url,
        Some("https://example.test/c.jpg".to_string())
    );

    let mut with_number = info_fields();
    with_number.push(("coverImageUrl", JsonValue::Number));
    assert!(parse_post(&obj(with_number)).is_none());
}

#[test]
fn image_post_parses_in_order() {
    let image = |id: &str| {
        obj(vec![
            ("id", s(id)),
            ("extension", s("png")),
            ("originalUrl", s(&format!("https://example.test/{}.png", id))),
        ])
    };
    let mut fields = info_fields();
    fields.push(("type", s("image")));
    fields.push((
        "body",
        obj(vec![
            ("text", s("caption")),
            ("images", JsonValue::Arr(vec![image("i1"), image("i2"), image("i3")])),
        ]),
    ));
    let post = parse_post(&obj(fields)).expect("image post should parse");
    match post.body {
        Some(PostBody::Image(ib)) => {
            assert_eq!(ib.body.text, "caption");
            let ids: Vec<&str> = ib.body.images.iter().map(|i| i.id.as_str()).collect();
            assert_eq!(ids, vec!["i1", "i2", "i3"]);
        },
        other => panic!("expected an image body, got {:?}", other),
    }
}

#[test]
fn article_post_parses() {
    let mut fields = info_fields();
    fields.push(("type", s("article")));
    let blocks = JsonValue::Arr(vec![
        obj(vec![("type", s("header")), ("text", s("H"))]),
        obj(vec![("type", s("image")), ("imageId", s("i1"))]),
        obj(vec![("type", s("p")), ("text", s("para"))]),
        obj(vec![("type", s("file")), ("fileId", s("f1"))]),
        obj(vec![("type", s("embed")), ("embedId", s("e1"))]),
        obj(vec![("type", s("url_embed")), ("urlEmbedId", s("u1"))]),
        obj(vec![("type", s("sliders"))]),
    ]);
    let image_map = obj(vec![(
        "i1",
        obj(vec![
            ("id", s("i1")),
            ("extension", s("jpeg")),
            ("originalUrl", s("https://example.test/i1.jpeg")),
        ]),
    )]);
    let file_map = obj(vec![(
        "f1",
        obj(vec![
            ("id", s("f1")),
            ("extension", s("zip")),
            ("name", s("bundle")),
            ("url", s("https://example.test/f1.zip")),
        ]),
    )]);
    let embed_map = obj(vec![
        ("e1", obj(vec![("serviceProvider", s("twitter")), ("contentId", s("t1"))])),
        ("e2", obj(vec![("serviceProvider", s("fanbox")), ("contentId", s("t2"))])),
        ("e3", obj(vec![("serviceProvider", s("youtube")), ("contentId", s("t3"))])),
        ("e4", obj(vec![("serviceProvider", s("myspace")), ("contentId", s("t4"))])),
    ]);
    let url_embed_map = obj(vec![
        ("u1", obj(vec![("type", s("default")), ("url", s("https://example.test/"))])),
        ("u2", obj(vec![("type", s("html")), ("html", s("<b>x</b>"))])),
        ("u3", obj(vec![("type", s("html.card")), ("html", s("<i>y</i>"))])),
        ("u4", obj(vec![("type", s("marquee"))])),
    ]);
    fields.push((
        "body",
        obj(vec![
            ("blocks", blocks),
            ("imageMap", image_map),
            ("fileMap", file_map),
            ("embedMap", embed_map),
            ("urlEmbedMap", url_embed_map),
        ]),
    ));
    let post = parse_post(&obj(fields)).expect("article post should parse");
    match post.body {
        Some(PostBody::Article(ab)) => {
            let b = ab.body;
            assert_eq!(b.blocks.len(), 7);
            assert!(matches!(b.blocks[0], ArticleBlock::Header(_)));
            assert!(matches!(b.blocks[1], ArticleBlock::Image(_)));
            assert!(matches!(b.blocks[2], ArticleBlock::P(_)));
            assert!(matches!(b.blocks[3], ArticleBlock::File(_)));
            assert!(matches!(b.blocks[4], ArticleBlock::Embed(_)));
            assert!(matches!(b.blocks[5], ArticleBlock::UrlEmbed(_)));
            assert!(matches!(b.blocks[6], ArticleBlock::Unknown));
            assert_eq!(b.image_map.len(), 1);
            assert_eq!(b.image_map[0].1.original_url, "https://example.test/i1.jpeg");
            assert_eq!(b.file_map[0].1.name, "bundle");
            assert_eq!(b.embed_map.len(), 4);
            assert!(matches!(b.embed_map[0].1, Embed::Twitter(_)));
            assert!(matches!(b.embed_map[1].1, Embed::Fanbox(_)));
            assert!(matches!(b.embed_map[2].1, Embed::Youtube(_)));
            assert!(matches!(b.embed_map[3].1, Embed::Unknown));
            assert!(matches!(b.url_embed_map[0].1, UrlEmbed::Default(_)));
            assert!(matches!(b.url_embed_map[1].1, UrlEmbed::Html(_)));
            assert!(matches!(b.url_embed_map[2].1, UrlEmbed::HtmlCard(_)));
            assert!(matches!(b.url_embed_map[3].1, UrlEmbed::Unknown));
        },
        other => panic!("expected an article body, got {:?}", other),
    }
}

#[test]
fn file_post_parses() {
    let mut fields = info_fields();
    fields.push(("type", s("file")));
    fields.push((
        "body",
        obj(vec![
            ("text", s("downloads")),
            (
                "files",
                JsonValue::Arr(vec![obj(vec![
                    ("id", s("f9")),
                    ("extension", s("pdf")),
                    ("name", s("notes")),
                    ("url", s("https://example.test/f9.pdf")),
                ])]),
            ),
        ]),
    ));
    let post = parse_post(&obj(fields)).expect("file post should parse");
    match post.body {
        Some(PostBody::File(fb)) => {
            assert_eq!(fb.body.text, "downloads");
            assert_eq!(fb.body.files.len(), 1);
            assert_eq!(fb.body.files[0].name, "notes");
        },
        other => panic!("expected a file body, got {:?}", other),
    }
}

#[test]
fn known_tag_with_bad_payload_fails() {
    let mut fields = info_fields();
    fields.push(("type", s("text")));
    fields.push(("body", JsonValue::Null));
    assert!(parse_post(&obj(fields)).is_none());
}

#[test]
fn extra_fields_are_ignored() {
    let mut fields = info_fields();
    fields.push(("likes", JsonValue::Number));
    fields.push(("draft", JsonValue::Bool(false)));
    assert!(parse_post(&obj(fields)).is_some());
}

#[test]
fn post_response_envelope_unwraps() {
    let mut fields = info_fields();
    fields.push(("type", s("text")));
    fields.push(("body", obj(vec![("text", s("x"))])));
    let envelope = obj(vec![("body", obj(fields))]);
    let post = parse_post_response(&envelope).expect("envelope should unwrap");
    assert_eq!(post.info.id, "A");
}

#[test]
fn decode_post_response_maps_to_read_error() {
    let bad = obj(vec![("body", JsonValue::Number)]);
    match decode_post_response(&bad) {
        Err(Error::HttpReadError { .. }) => {},
        other => panic!("expected a read error, got {:?}", other),
    }
}

#[test]
fn page_urls_parse_in_order() {
    let v = obj(vec![(
        "body",
        JsonValue::Arr(vec![s("https://example.test/page1"), s("https://example.test/page2")]),
    )]);
    let urls = parse_page_urls(&v).expect("page urls should parse");
    assert_eq!(urls, vec!["https://example.test/page1", "https://example.test/page2"]);
}

#[test]
fn page_urls_reject_non_string_entry() {
    let v = obj(vec![("body", JsonValue::Arr(vec![s("ok"), JsonValue::Number]))]);
    assert!(parse_page_urls(&v).is_none());
}

#[test]
fn page_items_parse_in_order() {
    let v = obj(vec![(
        "body",
        obj(vec![(
            "items",
            JsonValue::Arr(vec![obj(vec![("id", s("A"))]), obj(vec![("id", s("B"))])]),
        )]),
    )]);
    let items = parse_page_items(&v).expect("page items should parse");
    let ids: Vec<&str> = items.iter().map(|i| i.id.as_str()).collect();
    assert_eq!(ids, vec!["A", "B"]);
}
