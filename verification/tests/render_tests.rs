use fanbox_dl::model::{
    ArticleBlock, ArticleBlockFile, ArticleBlockHeader, ArticleBlockImage, ArticleBlockP,
    ArticleBlockUrlEmbed, File, Image, Post, PostBody, PostBodyArticle, PostBodyArticleBody,
    PostBodyImage, PostBodyImageBody, PostBodyText, PostBodyTextBody, PostInfo, Timestamp,
    UrlEmbed, UrlEmbedDefault, UrlEmbedHtml,
};
use fanbox_dl::render::{
    collect_lines, join_lines, plan_post, render_article_post, render_image_post, PostPlan,
    RenderAction,
};

fn line(s: &str) -> RenderAction {
    RenderAction::Line(s.to_string())
}

fn download(url: &str, file_name: &str) -> RenderAction {
    RenderAction::Download { url: url.to_string(), file_name: file_name.to_string() }
}

fn warning(s: &str) -> RenderAction {
    RenderAction::Warning(s.to_string())
}

fn info(cover: Option<&str>) -> PostInfo {
    PostInfo {
        id: "A".to_string(),
        title: "Hello".to_string(),
        cover_image_url: cover.map(|c| c.to_string()),
        updated_datetime: Timestamp { secs: 1704067200, nanos: 0 },
        creator_id: "alice".to_string(),
    }
}

fn article_body(blocks: Vec<ArticleBlock>) -> PostBodyArticleBody {
    PostBodyArticleBody {
        blocks,
        image_map: vec![(
            "i1".to_string(),
            Image {
                id: "i1".to_string(),
                extension: "jpeg".to_string(),
                original_url: "https://example.test/i1.jpeg".to_string(),
            },
        )],
        file_map: vec![(
            "f1".to_string(),
            File {
                id: "f1".to_string(),
                extension: "zip".to_string(),
                name: "bundle".to_string(),
                url: "https://example.test/f1.zip".to_string(),
            },
        )],
        embed_map: vec![],
        url_embed_map: vec![
            (
                "u1".to_string(),
                UrlEmbed::Default(UrlEmbedDefault { url: "https://example.test/".to_string() }),
            ),
            ("u2".to_string(), UrlEmbed::Html(UrlEmbedHtml { html: "<b>x</b>".to_string() })),
            (
                "u3".to_string(),
                UrlEmbed::HtmlCard(UrlEmbedHtml { html: "<i>y</i>".to_string() }),
            ),
            ("u4".to_string(), UrlEmbed::Unknown),
        ],
    }
}

#[test]
fn text_post_plan_has_title_and_paragraph() {
    let post = Post {
        info: info(None),
        body: Some(PostBody::Text(PostBodyText {
            body: PostBodyTextBody { text: "hi there".to_string() },
        })),
    };
    match plan_post("alice", &post) {
        PostPlan::Render { dir_name, mtime, actions } => {
            assert_eq!(dir_name, "A");
            assert_eq!(mtime, Timestamp { secs: 1704067200, nanos: 0 });
            assert_eq!(
                actions,
                vec![
                    line("<h1><a href='https://alice.fanbox.cc/posts/A'>Hello</a></h1>"),
                    line("<p>hi there</p>"),
                ]
            );
            let lines = collect_lines(&actions);
            assert_eq!(
                join_lines(&lines),
                "<h1><a href='https://alice.fanbox.cc/posts/A'>Hello</a></h1>\n<p>hi there</p>"
            );
        },
        other => panic!("expected a rendered plan, got {:?}", other),
    }
}

#[test]
fn hidden_post_is_skipped_with_one_warning() {
    let post = Post { info: info(Some("https://example.test/cover.jpg")), body: None };
    match plan_post("alice", &post) {
        PostPlan::Skip { warning } => {
            assert_eq!(
                warning,
                "You don't have permission to see post https://alice.fanbox.cc/posts/A"
            );
        },
        other => panic!("a hidden post must be skipped, got {:?}", other),
    }
}

#[test]
fn image_post_renders_cover_and_images_in_order() {
    let body = PostBodyImageBody {
        text: "caption".to_string(),
        images: vec![
            Image {
                id: "i1".to_string(),
                extension: "png".to_string(),
                original_url: "https://example.test/i1.png".to_string(),
            },
            Image {
                id: "i2".to_string(),
                extension: "gif".to_string(),
                original_url: "https://example.test/i2.gif".to_string(),
            },
        ],
    };
    let actions = render_image_post(&info(Some("https://example.test/c.jpg")), &body);
    assert_eq!(
        actions,
        vec![
            line("<h1><a href='https://alice.fanbox.cc/posts/A'>Hello</a></h1>"),
            download("https://example.test/c.jpg", "cover_image.jpeg"),
            line("<p>"),
            line("<img alt='https://example.test/c.jpg' src='./cover_image.jpeg'>"),
            line("</p>"),
            download("https://example.test/i1.png", "i1.png"),
            line("<p><img alt='https://example.test/i1.png' src='./i1.png' style='width: 100%;'></p>"),
            download("https://example.test/i2.gif", "i2.gif"),
            line("<p><img alt='https://example.test/i2.gif' src='./i2.gif' style='width: 100%;'></p>"),
            line("<p>caption</p>"),
        ]
    );
}

#[test]
fn article_keeps_header_image_paragraph_order() {
    let body = article_body(vec![
        ArticleBlock::Header(ArticleBlockHeader { text: "H".to_string() }),
        ArticleBlock::Image(ArticleBlockImage { image_id: "i1".to_string() }),
        ArticleBlock::P(ArticleBlockP { text: "para".to_string() }),
    ]);
    let actions = render_article_post(&info(None), &body);
    assert_eq!(
        actions,
        vec![
            line("<h1><a href='https://alice.fanbox.cc/posts/A'>Hello</a></h1>"),
            line("<p>"),
            line("<h2>H</h2>"),
            line("</p>"),
            line("<p>"),
            download("https://example.test/i1.jpeg", "i1.jpeg"),
            line("<img alt='https://example.test/i1.jpeg' src='./i1.jpeg' style='width: 100%;'>"),
            line("</p>"),
            line("<p>"),
            line("para"),
            line("</p>"),
        ]
    );
    let download_at = actions
        .iter()
        .position(|a| matches!(a, RenderAction::Download { .. }))
        .expect("the image must be downloaded");
    let paragraph_at = actions
        .iter()
        .position(|a| a == &line("para"))
        .expect("the paragraph must be emitted");
    assert!(download_at < paragraph_at);
}

#[test]
fn dangling_image_reference_warns_and_skips_download() {
    let body = article_body(vec![
        ArticleBlock::Image(ArticleBlockImage { image_id: "missing".to_string() }),
        ArticleBlock::P(ArticleBlockP { text: "after".to_string() }),
    ]);
    let actions = render_article_post(&info(None), &body);
    assert_eq!(
        actions,
        vec![
            line("<h1><a href='https://alice.fanbox.cc/posts/A'>Hello</a></h1>"),
            warning("image missing is not available in imageMap"),
            line("<p>"),
            line("after"),
            line("</p>"),
        ]
    );
    assert!(!actions.iter().any(|a| matches!(a, RenderAction::Download { .. })));
}

#[test]
fn dangling_file_and_url_embed_references_warn() {
    let body = article_body(vec![
        ArticleBlock::File(ArticleBlockFile { file_id: "nope".to_string() }),
        ArticleBlock::UrlEmbed(ArticleBlockUrlEmbed { url_embed_id: "gone".to_string() }),
    ]);
    let actions = render_article_post(&info(None), &body);
    assert_eq!(
        actions,
        vec![
            line("<h1><a href='https://alice.fanbox.cc/posts/A'>Hello</a></h1>"),
            warning("file nope is not available in fileMap"),
            warning("url_embed gone is not available in urlEmbedMap"),
        ]
    );
}

#[test]
fn url_embed_variants_render() {
    let body = article_body(vec![
        ArticleBlock::UrlEmbed(ArticleBlockUrlEmbed { url_embed_id: "u1".to_string() }),
        ArticleBlock::UrlEmbed(ArticleBlockUrlEmbed { url_embed_id: "u2".to_string() }),
        ArticleBlock::UrlEmbed(ArticleBlockUrlEmbed { url_embed_id: "u3".to_string() }),
        ArticleBlock::UrlEmbed(ArticleBlockUrlEmbed { url_embed_id: "u4".to_string() }),
    ]);
    let actions = render_article_post(&info(None), &body);
    assert_eq!(
        actions,
        vec![
            line("<h1><a href='https://alice.fanbox.cc/posts/A'>Hello</a></h1>"),
            line("<p>"),
            line("<a href='https://example.test/'>https://example.test/</a>"),
            line("</p>"),
            line("<p>"),
            line("<b>x</b>"),
            line("</p>"),
            line("<p>"),
            line("<i>y</i>"),
            line("</p>"),
            line("<p>"),
            line("</p>"),
        ]
    );
}

#[test]
fn embed_and_unknown_blocks_contribute_nothing() {
    let body = article_body(vec![
        ArticleBlock::Embed(fanbox_dl::model::ArticleBlockEmbed { embed_id: "e1".to_string() }),
        ArticleBlock::Unknown,
    ]);
    let actions = render_article_post(&info(None), &body);
    assert_eq!(
        actions,
        vec![
            line("<h1><a href='https://alice.fanbox.cc/posts/A'>Hello</a></h1>"),
            line("<p>"),
            line("</p>"),
            line("<p>"),
            line("</p>"),
        ]
    );
}

#[test]
fn article_cover_is_a_single_wrapped_line() {
    let body = article_body(vec![]);
    let actions = render_article_post(&info(Some("https://example.test/c.jpg")), &body);
    assert_eq!(
        actions,
        vec![
            line("<h1><a href='https://alice.fanbox.cc/posts/A'>Hello</a></h1>"),
            download("https://example.test/c.jpg", "cover_image.jpeg"),
            line("<p><img alt='https://example.test/c.jpg' src='./cover_image.jpeg'></p>"),
        ]
    );
}

#[test]
fn file_post_plan_downloads_and_links() {
    let post = Post {
        info: info(None),
        body: Some(PostBody::File(fanbox_dl::model::PostBodyFile {
            body: fanbox_dl::model::PostBodyFileBody {
                text: "downloads".to_string(),
                files: vec![File {
                    id: "f9".to_string(),
                    extension: "pdf".to_string(),
                    name: "notes".to_string(),
                    url: "https://example.test/f9.pdf".to_string(),
                }],
            },
        })),
    };
    match plan_post("alice", &post) {
        PostPlan::Render { actions, .. } => {
            assert_eq!(
                actions,
                vec![
                    line("<h1><a href='https://alice.fanbox.cc/posts/A'>Hello</a></h1>"),
                    download("https://example.test/f9.pdf", "f9.pdf"),
                    line("<p>"),
                    line("<a href='./f9.pdf'>notes</a>"),
                    line("</p>"),
                    line("<p>downloads</p>"),
                ]
            );
        },
        other => panic!("expected a rendered plan, got {:?}", other),
    }
}

#[test]
fn unknown_body_renders_only_the_opening() {
    let post = Post { info: info(Some("https://example.test/c.jpg")), body: Some(PostBody::Unknown) };
    match plan_post("alice", &post) {
        PostPlan::Render { actions, .. } => {
            assert_eq!(
                actions,
                vec![
                    line("<h1><a href='https://alice.fanbox.cc/posts/A'>Hello</a></h1>"),
                    download("https://example.test/c.jpg", "cover_image.jpeg"),
                    line("<p>"),
                    line("<img alt='https://example.test/c.jpg' src='./cover_image.jpeg'>"),
                    line("</p>"),
                ]
            );
        },
        other => panic!("expected a rendered plan, got {:?}", other),
    }
}

#[test]
fn image_post_plan_keeps_the_post_mtime() {
    let post = Post {
        info: PostInfo {
            updated_datetime: Timestamp { secs: 1704164645, nanos: 123456789 },
            ..info(None)
        },
        body: Some(PostBody::Image(PostBodyImage {
            body: PostBodyImageBody { text: "t".to_string(), images: vec![] },
        })),
    };
    match plan_post("alice", &post) {
        PostPlan::Render { mtime, .. } => {
            assert_eq!(mtime, Timestamp { secs: 1704164645, nanos: 123456789 });
        },
        other => panic!("expected a rendered plan, got {:?}", other),
    }
}
