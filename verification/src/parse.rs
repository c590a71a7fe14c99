use vstd::prelude::*;
use crate::json::{JsonValue, spec_get, spec_get_str};
use crate::error::Error;
use crate::model::{
    ArticleBlock, ArticleBlockEmbed, ArticleBlockFile, ArticleBlockHeader, ArticleBlockImage,
    ArticleBlockP, ArticleBlockUrlEmbed, ArticleBlockView, ArticleBodyView, Embed, EmbedFanbox,
    EmbedTwitter, EmbedView, EmbedYoutube, File, FileBodyView, FileView, Image, ImageBodyView,
    ImageView, ListCreatorItem, ListCreatorItemView, Post, PostBody, PostBodyArticle,
    PostBodyArticleBody, PostBodyFile, PostBodyFileBody, PostBodyImage, PostBodyImageBody,
    PostBodyText, PostBodyTextBody, PostBodyView, PostInfo, PostInfoView, PostView, Timestamp,
    UrlEmbed, UrlEmbedDefault, UrlEmbedHtml, UrlEmbedView,
};
use crate::util::{push_dv, str_eq};
use vstd::string::StringExecFns;

verus! {

/// The instant denoted by an RFC 3339 date-and-time string, as POSIX
/// seconds and sub-second nanoseconds, or `None` when the string is not a
/// valid RFC 3339 value. The exact acceptance and rounding rules are
/// chrono's; only their determinism is relied on here.
pub uninterp spec fn rfc3339_of(s: Seq<char>) -> Option<(i64, u32)>;

/// Relies on chrono's `DateTime::parse_from_rfc3339`, `timestamp` and
/// `timestamp_subsec_nanos`: parsing an RFC 3339 string is a function of
/// its characters alone.
#[verifier::external_body]
fn parse_rfc3339(s: &str) -> (r: Option<Timestamp>)
    ensures
        (match r {
            Some(t) => rfc3339_of(s@) == Some((t.secs, t.nanos)),
            None => rfc3339_of(s@) is None,
        }),
{
    match chrono::DateTime::parse_from_rfc3339(s) {
        Ok(dt) => Some(Timestamp { secs: dt.timestamp(), nanos: dt.timestamp_subsec_nanos() }),
        Err(_) => None,
    }
}

/// An image asset object: `id`, `extension` and `originalUrl`, all strings.
pub open spec fn spec_parse_image(v: JsonValue) -> Option<ImageView> {
    match (spec_get_str(v, "id"@), spec_get_str(v, "extension"@), spec_get_str(
        v,
        "originalUrl"@,
    )) {
        (Some(id), Some(extension), Some(original_url)) => Some(
            ImageView { id, extension, original_url },
        ),
        _ => None,
    }
}

pub fn parse_image(v: &JsonValue) -> (r: Option<Image>)
    ensures
        r.deep_view() == spec_parse_image(*v),
{
    let id = match v.get_str("id") {
        Some(s) => s,
        None => { return None },
    };
    let extension = match v.get_str("extension") {
        Some(s) => s,
        None => { return None },
    };
    let original_url = match v.get_str("originalUrl") {
        Some(s) => s,
        None => { return None },
    };
    Some(Image { id, extension, original_url })
}

/// An all-or-nothing parse of a sequence of image objects, kept in order.
pub open spec fn spec_parse_images(vs: Seq<JsonValue>) -> Option<Seq<ImageView>>
    decreases vs.len(),
{
    if vs.len() == 0 {
        Some(Seq::empty())
    } else {
        match (spec_parse_images(vs.drop_last()), spec_parse_image(vs.last())) {
            (Some(s), Some(x)) => Some(s.push(x)),
            _ => None,
        }
    }
}

pub fn parse_images(arr: &Vec<JsonValue>) -> (r: Option<Vec<Image>>)
    ensures
        r.deep_view() == spec_parse_images(arr@),
{
    let n = arr.len();
    let mut acc: Vec<Image> = Vec::new();
    let mut ok = true;
    let mut i: usize = 0;
    proof {
        assert(arr@.take(0) =~= Seq::<JsonValue>::empty());
        assert(acc.deep_view() =~= Seq::<ImageView>::empty());
    }
    while i < n
        invariant
            i <= n,
            n == arr.len(),
            ok ==> spec_parse_images(arr@.take(i as int)) == Some(acc.deep_view()),
            !ok ==> spec_parse_images(arr@.take(i as int)) is None,
        decreases n - i,
    {
        proof {
            assert(arr@.take(i as int + 1).drop_last() =~= arr@.take(i as int));
            assert(arr@.take(i as int + 1).last() == arr@[i as int]);
        }
        if ok {
            match parse_image(&arr[i]) {
                Some(x) => push_dv(&mut acc, x),
                None => { ok = false },
            }
        }
        i = i + 1;
    }
    proof {
        assert(arr@.take(n as int) =~= arr@);
    }
    if ok {
        Some(acc)
    } else {
        None
    }
}

/// A file asset object: `id`, `extension`, `name` and `url`, all strings.
pub open spec fn spec_parse_file(v: JsonValue) -> Option<FileView> {
    match (spec_get_str(v, "id"@), spec_get_str(v, "extension"@), spec_get_str(v, "name"@),
    spec_get_str(v, "url"@)) {
        (Some(id), Some(extension), Some(name), Some(url)) => Some(
            FileView { id, extension, name, url },
        ),
        _ => None,
    }
}

pub fn parse_file(v: &JsonValue) -> (r: Option<File>)
    ensures
        r.deep_view() == spec_parse_file(*v),
{
    let id = match v.get_str("id") {
        Some(s) => s,
        None => { return None },
    };
    let extension = match v.get_str("extension") {
        Some(s) => s,
        None => { return None },
    };
    let name = match v.get_str("name") {
        Some(s) => s,
        None => { return None },
    };
    let url = match v.get_str("url") {
        Some(s) => s,
        None => { return None },
    };
    Some(File { id, extension, name, url })
}

/// An all-or-nothing parse of a sequence of file objects, kept in order.
pub open spec fn spec_parse_files(vs: Seq<JsonValue>) -> Option<Seq<FileView>>
    decreases vs.len(),
{
    if vs.len() == 0 {
        Some(Seq::empty())
    } else {
        match (spec_parse_files(vs.drop_last()), spec_parse_file(vs.last())) {
            (Some(s), Some(x)) => Some(s.push(x)),
            _ => None,
        }
    }
}

pub fn parse_files(arr: &Vec<JsonValue>) -> (r: Option<Vec<File>>)
    ensures
        r.deep_view() == spec_parse_files(arr@),
{
    let n = arr.len();
    let mut acc: Vec<File> = Vec::new();
    let mut ok = true;
    let mut i: usize = 0;
    proof {
        assert(arr@.take(0) =~= Seq::<JsonValue>::empty());
        assert(acc.deep_view() =~= Seq::<FileView>::empty());
    }
    while i < n
        invariant
            i <= n,
            n == arr.len(),
            ok ==> spec_parse_files(arr@.take(i as int)) == Some(acc.deep_view()),
            !ok ==> spec_parse_files(arr@.take(i as int)) is None,
        decreases n - i,
    {
        proof {
            assert(arr@.take(i as int + 1).drop_last() =~= arr@.take(i as int));
            assert(arr@.take(i as int + 1).last() == arr@[i as int]);
        }
        if ok {
            match parse_file(&arr[i]) {
                Some(x) => push_dv(&mut acc, x),
                None => { ok = false },
            }
        }
        i = i + 1;
    }
    proof {
        assert(arr@.take(n as int) =~= arr@);
    }
    if ok {
        Some(acc)
    } else {
        None
    }
}

/// One article block, routed by exact match on its `type` tag; any other
/// tag lands on `Unknown` rather than failing the post.
pub open spec fn spec_parse_block(v: JsonValue) -> Option<ArticleBlockView> {
    match spec_get(v, "type"@) {
        Some(JsonValue::Str(t)) => {
            if t@ == "p"@ {
                match spec_get_str(v, "text"@) {
                    Some(text) => Some(ArticleBlockView::P { text }),
                    None => None,
                }
            } else if t@ == "header"@ {
                match spec_get_str(v, "text"@) {
                    Some(text) => Some(ArticleBlockView::Header { text }),
                    None => None,
                }
            } else if t@ == "image"@ {
                match spec_get_str(v, "imageId"@) {
                    Some(image_id) => Some(ArticleBlockView::Image { image_id }),
                    None => None,
                }
            } else if t@ == "file"@ {
                match spec_get_str(v, "fileId"@) {
                    Some(file_id) => Some(ArticleBlockView::File { file_id }),
                    None => None,
                }
            } else if t@ == "embed"@ {
                match spec_get_str(v, "embedId"@) {
                    Some(embed_id) => Some(ArticleBlockView::Embed { embed_id }),
                    None => None,
                }
            } else if t@ == "url_embed"@ {
                match spec_get_str(v, "urlEmbedId"@) {
                    Some(url_embed_id) => Some(ArticleBlockView::UrlEmbed { url_embed_id }),
                    None => None,
                }
            } else {
                Some(ArticleBlockView::Unknown)
            }
        },
        _ => None,
    }
}

pub fn parse_block(v: &JsonValue) -> (r: Option<ArticleBlock>)
    ensures
        r.deep_view() == spec_parse_block(*v),
{
    let t = match v.get("type") {
        Some(JsonValue::Str(s)) => s.clone(),
        _ => { return None },
    };
    if str_eq(t.as_str(), "p") {
        match v.get_str("text") {
            Some(text) => Some(ArticleBlock::P(ArticleBlockP { text })),
            None => None,
        }
    } else if str_eq(t.as_str(), "header") {
        match v.get_str("text") {
            Some(text) => Some(ArticleBlock::Header(ArticleBlockHeader { text })),
            None => None,
        }
    } else if str_eq(t.as_str(), "image") {
        match v.get_str("imageId") {
            Some(image_id) => Some(ArticleBlock::Image(ArticleBlockImage { image_id })),
            None => None,
        }
    } else if str_eq(t.as_str(), "file") {
        match v.get_str("fileId") {
            Some(file_id) => Some(ArticleBlock::File(ArticleBlockFile { file_id })),
            None => None,
        }
    } else if str_eq(t.as_str(), "embed") {
        match v.get_str("embedId") {
            Some(embed_id) => Some(ArticleBlock::Embed(ArticleBlockEmbed { embed_id })),
            None => None,
        }
    } else if str_eq(t.as_str(), "url_embed") {
        match v.get_str("urlEmbedId") {
            Some(url_embed_id) => Some(ArticleBlock::UrlEmbed(ArticleBlockUrlEmbed {
                url_embed_id,
            })),
            None => None,
        }
    } else {
        Some(ArticleBlock::Unknown)
    }
}

/// An all-or-nothing parse of the block sequence. Order is load-bearing:
/// it is the document's paragraph order.
pub open spec fn spec_parse_blocks(vs: Seq<JsonValue>) -> Option<Seq<ArticleBlockView>>
    decreases vs.len(),
{
    if vs.len() == 0 {
        Some(Seq::empty())
    } else {
        match (spec_parse_blocks(vs.drop_last()), spec_parse_block(vs.last())) {
            (Some(s), Some(x)) => Some(s.push(x)),
            _ => None,
        }
    }
}

pub fn parse_blocks(arr: &Vec<JsonValue>) -> (r: Option<Vec<ArticleBlock>>)
    ensures
        r.deep_view() == spec_parse_blocks(arr@),
{
    let n = arr.len();
    let mut acc: Vec<ArticleBlock> = Vec::new();
    let mut ok = true;
    let mut i: usize = 0;
    proof {
        assert(arr@.take(0) =~= Seq::<JsonValue>::empty());
        assert(acc.deep_view() =~= Seq::<ArticleBlockView>::empty());
    }
    while i < n
        invariant
            i <= n,
            n == arr.len(),
            ok ==> spec_parse_blocks(arr@.take(i as int)) == Some(acc.deep_view()),
            !ok ==> spec_parse_blocks(arr@.take(i as int)) is None,
        decreases n - i,
    {
        proof {
            assert(arr@.take(i as int + 1).drop_last() =~= arr@.take(i as int));
            assert(arr@.take(i as int + 1).last() == arr@[i as int]);
        }
        if ok {
            match parse_block(&arr[i]) {
                Some(x) => push_dv(&mut acc, x),
                None => { ok = false },
            }
        }
        i = i + 1;
    }
    proof {
        assert(arr@.take(n as int) =~= arr@);
    }
    if ok {
        Some(acc)
    } else {
        None
    }
}

/// A provider-keyed embed, routed by exact match on `serviceProvider`.
pub open spec fn spec_parse_embed(v: JsonValue) -> Option<EmbedView> {
    match spec_get(v, "serviceProvider"@) {
        Some(JsonValue::Str(t)) => {
            if t@ == "twitter"@ {
                match spec_get_str(v, "contentId"@) {
                    Some(content_id) => Some(EmbedView::Twitter { content_id }),
                    None => None,
                }
            } else if t@ == "fanbox"@ {
                match spec_get_str(v, "contentId"@) {
                    Some(content_id) => Some(EmbedView::Fanbox { content_id }),
                    None => None,
                }
            } else if t@ == "youtube"@ {
                match spec_get_str(v, "contentId"@) {
                    Some(content_id) => Some(EmbedView::Youtube { content_id }),
                    None => None,
                }
            } else {
                Some(EmbedView::Unknown)
            }
        },
        _ => None,
    }
}

pub fn parse_embed(v: &JsonValue) -> (r: Option<Embed>)
    ensures
        r.deep_view() == spec_parse_embed(*v),
{
    let t = match v.get("serviceProvider") {
        Some(JsonValue::Str(s)) => s.clone(),
        _ => { return None },
    };
    if str_eq(t.as_str(), "twitter") {
        match v.get_str("contentId") {
            Some(content_id) => Some(Embed::Twitter(EmbedTwitter { content_id })),
            None => None,
        }
    } else if str_eq(t.as_str(), "fanbox") {
        match v.get_str("contentId") {
            Some(content_id) => Some(Embed::Fanbox(EmbedFanbox { content_id })),
            None => None,
        }
    } else if str_eq(t.as_str(), "youtube") {
        match v.get_str("contentId") {
            Some(content_id) => Some(Embed::Youtube(EmbedYoutube { content_id })),
            None => None,
        }
    } else {
        Some(Embed::Unknown)
    }
}

/// A URL embed, routed by exact match on its `type` tag.
pub open spec fn spec_parse_url_embed(v: JsonValue) -> Option<UrlEmbedView> {
    match spec_get(v, "type"@) {
        Some(JsonValue::Str(t)) => {
            if t@ == "default"@ {
                match spec_get_str(v, "url"@) {
                    Some(url) => Some(UrlEmbedView::Default { url }),
                    None => None,
                }
            } else if t@ == "html"@ {
                match spec_get_str(v, "html"@) {
                    Some(html) => Some(UrlEmbedView::Html { html }),
                    None => None,
                }
            } else if t@ == "html.card"@ {
                match spec_get_str(v, "html"@) {
                    Some(html) => Some(UrlEmbedView::HtmlCard { html }),
                    None => None,
                }
            } else {
                Some(UrlEmbedView::Unknown)
            }
        },
        _ => None,
    }
}

pub fn parse_url_embed(v: &JsonValue) -> (r: Option<UrlEmbed>)
    ensures
        r.deep_view() == spec_parse_url_embed(*v),
{
    let t = match v.get("type") {
        Some(JsonValue::Str(s)) => s.clone(),
        _ => { return None },
    };
    if str_eq(t.as_str(), "default") {
        match v.get_str("url") {
            Some(url) => Some(UrlEmbed::Default(UrlEmbedDefault { url })),
            None => None,
        }
    } else if str_eq(t.as_str(), "html") {
        match v.get_str("html") {
            Some(html) => Some(UrlEmbed::Html(UrlEmbedHtml { html })),
            None => None,
        }
    } else if str_eq(t.as_str(), "html.card") {
        match v.get_str("html") {
            Some(html) => Some(UrlEmbed::HtmlCard(UrlEmbedHtml { html })),
            None => None,
        }
    } else {
        Some(UrlEmbed::Unknown)
    }
}

/// An all-or-nothing parse of an image map's entries, keys kept in the
/// order handed in. The maps are lookup-only, so entry order carries no
/// meaning; it is merely preserved.
pub open spec fn spec_parse_image_entries(entries: Seq<(String, JsonValue)>) -> Option<
    Seq<(Seq<char>, ImageView)>,
>
    decreases entries.len(),
{
    if entries.len() == 0 {
        Some(Seq::empty())
    } else {
        match (spec_parse_image_entries(entries.drop_last()), spec_parse_image(
            entries.last().1,
        )) {
            (Some(s), Some(x)) => Some(s.push((entries.last().0@, x))),
            _ => None,
        }
    }
}

/// The `imageMap` object of an article body.
pub open spec fn spec_parse_image_map(v: JsonValue) -> Option<Seq<(Seq<char>, ImageView)>> {
    match v {
        JsonValue::Obj(entries) => spec_parse_image_entries(entries@),
        _ => None,
    }
}

pub fn parse_image_map(v: &JsonValue) -> (r: Option<Vec<(String, Image)>>)
    ensures
        r.deep_view() == spec_parse_image_map(*v),
{
    match v {
        JsonValue::Obj(entries) => {
            let n = entries.len();
            let mut acc: Vec<(String, Image)> = Vec::new();
            let mut ok = true;
            let mut i: usize = 0;
            proof {
                assert(entries@.take(0) =~= Seq::<(String, JsonValue)>::empty());
                assert(acc.deep_view() =~= Seq::<(Seq<char>, ImageView)>::empty());
            }
            while i < n
                invariant
                    i <= n,
                    n == entries.len(),
                    spec_parse_image_map(*v) == spec_parse_image_entries(entries@),
                    ok ==> spec_parse_image_entries(entries@.take(i as int)) == Some(
                        acc.deep_view(),
                    ),
                    !ok ==> spec_parse_image_entries(entries@.take(i as int)) is None,
                decreases n - i,
            {
                proof {
                    assert(entries@.take(i as int + 1).drop_last() =~= entries@.take(i as int));
                    assert(entries@.take(i as int + 1).last() == entries@[i as int]);
                }
                if ok {
                    match parse_image(&entries[i].1) {
                        Some(x) => {
                            let key = entries[i].0.clone();
                            push_dv(&mut acc, (key, x));
                        },
                        None => { ok = false },
                    }
                }
                i = i + 1;
            }
            proof {
                assert(entries@.take(n as int) =~= entries@);
            }
            if ok {
                Some(acc)
            } else {
                None
            }
        },
        _ => None,
    }
}

/// An all-or-nothing parse of a file map's entries.
pub open spec fn spec_parse_file_entries(entries: Seq<(String, JsonValue)>) -> Option<
    Seq<(Seq<char>, FileView)>,
>
    decreases entries.len(),
{
    if entries.len() == 0 {
        Some(Seq::empty())
    } else {
        match (spec_parse_file_entries(entries.drop_last()), spec_parse_file(entries.last().1)) {
            (Some(s), Some(x)) => Some(s.push((entries.last().0@, x))),
            _ => None,
        }
    }
}

/// The `fileMap` object of an article body.
pub open spec fn spec_parse_file_map(v: JsonValue) -> Option<Seq<(Seq<char>, FileView)>> {
    match v {
        JsonValue::Obj(entries) => spec_parse_file_entries(entries@),
        _ => None,
    }
}

pub fn parse_file_map(v: &JsonValue) -> (r: Option<Vec<(String, File)>>)
    ensures
        r.deep_view() == spec_parse_file_map(*v),
{
    match v {
        JsonValue::Obj(entries) => {
            let n = entries.len();
            let mut acc: Vec<(String, File)> = Vec::new();
            let mut ok = true;
            let mut i: usize = 0;
            proof {
                assert(entries@.take(0) =~= Seq::<(String, JsonValue)>::empty());
                assert(acc.deep_view() =~= Seq::<(Seq<char>, FileView)>::empty());
            }
            while i < n
                invariant
                    i <= n,
                    n == entries.len(),
                    spec_parse_file_map(*v) == spec_parse_file_entries(entries@),
                    ok ==> spec_parse_file_entries(entries@.take(i as int)) == Some(
                        acc.deep_view(),
                    ),
                    !ok ==> spec_parse_file_entries(entries@.take(i as int)) is None,
                decreases n - i,
            {
                proof {
                    assert(entries@.take(i as int + 1).drop_last() =~= entries@.take(i as int));
                    assert(entries@.take(i as int + 1).last() == entries@[i as int]);
                }
                if ok {
                    match parse_file(&entries[i].1) {
                        Some(x) => {
                            let key = entries[i].0.clone();
                            push_dv(&mut acc, (key, x));
                        },
                        None => { ok = false },
                    }
                }
                i = i + 1;
            }
            proof {
                assert(entries@.take(n as int) =~= entries@);
            }
            if ok {
                Some(acc)
            } else {
                None
            }
        },
        _ => None,
    }
}

/// An all-or-nothing parse of an embed map's entries.
pub open spec fn spec_parse_embed_entries(entries: Seq<(String, JsonValue)>) -> Option<
    Seq<(Seq<char>, EmbedView)>,
>
    decreases entries.len(),
{
    if entries.len() == 0 {
        Some(Seq::empty())
    } else {
        match (spec_parse_embed_entries(entries.drop_last()), spec_parse_embed(
            entries.last().1,
        )) {
            (Some(s), Some(x)) => Some(s.push((entries.last().0@, x))),
            _ => None,
        }
    }
}

/// The `embedMap` object of an article body.
pub open spec fn spec_parse_embed_map(v: JsonValue) -> Option<Seq<(Seq<char>, EmbedView)>> {
    match v {
        JsonValue::Obj(entries) => spec_parse_embed_entries(entries@),
        _ => None,
    }
}

pub fn parse_embed_map(v: &JsonValue) -> (r: Option<Vec<(String, Embed)>>)
    ensures
        r.deep_view() == spec_parse_embed_map(*v),
{
    match v {
        JsonValue::Obj(entries) => {
            let n = entries.len();
            let mut acc: Vec<(String, Embed)> = Vec::new();
            let mut ok = true;
            let mut i: usize = 0;
            proof {
                assert(entries@.take(0) =~= Seq::<(String, JsonValue)>::empty());
                assert(acc.deep_view() =~= Seq::<(Seq<char>, EmbedView)>::empty());
            }
            while i < n
                invariant
                    i <= n,
                    n == entries.len(),
                    spec_parse_embed_map(*v) == spec_parse_embed_entries(entries@),
                    ok ==> spec_parse_embed_entries(entries@.take(i as int)) == Some(
                        acc.deep_view(),
                    ),
                    !ok ==> spec_parse_embed_entries(entries@.take(i as int)) is None,
                decreases n - i,
            {
                proof {
                    assert(entries@.take(i as int + 1).drop_last() =~= entries@.take(i as int));
                    assert(entries@.take(i as int + 1).last() == entries@[i as int]);
                }
                if ok {
                    match parse_embed(&entries[i].1) {
                        Some(x) => {
                            let key = entries[i].0.clone();
                            push_dv(&mut acc, (key, x));
                        },
                        None => { ok = false },
                    }
                }
                i = i + 1;
            }
            proof {
                assert(entries@.take(n as int) =~= entries@);
            }
            if ok {
                Some(acc)
            } else {
                None
            }
        },
        _ => None,
    }
}

/// An all-or-nothing parse of a URL-embed map's entries.
pub open spec fn spec_parse_url_embed_entries(entries: Seq<(String, JsonValue)>) -> Option<
    Seq<(Seq<char>, UrlEmbedView)>,
>
    decreases entries.len(),
{
    if entries.len() == 0 {
        Some(Seq::empty())
    } else {
        match (spec_parse_url_embed_entries(entries.drop_last()), spec_parse_url_embed(
            entries.last().1,
        )) {
            (Some(s), Some(x)) => Some(s.push((entries.last().0@, x))),
            _ => None,
        }
    }
}

/// The `urlEmbedMap` object of an article body.
pub open spec fn spec_parse_url_embed_map(v: JsonValue) -> Option<Seq<(Seq<char>, UrlEmbedView)>> {
    match v {
        JsonValue::Obj(entries) => spec_parse_url_embed_entries(entries@),
        _ => None,
    }
}

pub fn parse_url_embed_map(v: &JsonValue) -> (r: Option<Vec<(String, UrlEmbed)>>)
    ensures
        r.deep_view() == spec_parse_url_embed_map(*v),
{
    match v {
        JsonValue::Obj(entries) => {
            let n = entries.len();
            let mut acc: Vec<(String, UrlEmbed)> = Vec::new();
            let mut ok = true;
            let mut i: usize = 0;
            proof {
                assert(entries@.take(0) =~= Seq::<(String, JsonValue)>::empty());
                assert(acc.deep_view() =~= Seq::<(Seq<char>, UrlEmbedView)>::empty());
            }
            while i < n
                invariant
                    i <= n,
                    n == entries.len(),
                    spec_parse_url_embed_map(*v) == spec_parse_url_embed_entries(entries@),
                    ok ==> spec_parse_url_embed_entries(entries@.take(i as int)) == Some(
                        acc.deep_view(),
                    ),
                    !ok ==> spec_parse_url_embed_entries(entries@.take(i as int)) is None,
                decreases n - i,
            {
                proof {
                    assert(entries@.take(i as int + 1).drop_last() =~= entries@.take(i as int));
                    assert(entries@.take(i as int + 1).last() == entries@[i as int]);
                }
                if ok {
                    match parse_url_embed(&entries[i].1) {
                        Some(x) => {
                            let key = entries[i].0.clone();
                            push_dv(&mut acc, (key, x));
                        },
                        None => { ok = false },
                    }
                }
                i = i + 1;
            }
            proof {
                assert(entries@.take(n as int) =~= entries@);
            }
            if ok {
                Some(acc)
            } else {
                None
            }
        },
        _ => None,
    }
}

/// The body envelope of an image post: the trailing text and the ordered
/// image list.
pub open spec fn spec_parse_image_body(v: JsonValue) -> Option<ImageBodyView> {
    let text = spec_get_str(v, "text"@);
    let images = (match spec_get(v, "images"@) {
        Some(JsonValue::Arr(vs)) => spec_parse_images(vs@),
        _ => None,
    });
    if text is Some && images is Some {
        Some(ImageBodyView { text: text->0, images: images->0 })
    } else {
        None
    }
}

pub fn parse_image_body(v: &JsonValue) -> (r: Option<PostBodyImageBody>)
    ensures
        r.deep_view() == spec_parse_image_body(*v),
{
    let text = match v.get_str("text") {
        Some(s) => s,
        None => { return None },
    };
    let images = match v.get("images") {
        Some(JsonValue::Arr(vs)) => match parse_images(vs) {
            Some(x) => x,
            None => { return None },
        },
        _ => { return None },
    };
    Some(PostBodyImageBody { text, images })
}

/// The body envelope of an article post: the block sequence and the four
/// cross-reference maps.
pub open spec fn spec_parse_article_body(v: JsonValue) -> Option<ArticleBodyView> {
    let blocks = (match spec_get(v, "blocks"@) {
        Some(JsonValue::Arr(vs)) => spec_parse_blocks(vs@),
        _ => None,
    });
    let image_map = (match spec_get(v, "imageMap"@) {
        Some(m) => spec_parse_image_map(m),
        None => None,
    });
    let file_map = (match spec_get(v, "fileMap"@) {
        Some(m) => spec_parse_file_map(m),
        None => None,
    });
    let embed_map = (match spec_get(v, "embedMap"@) {
        Some(m) => spec_parse_embed_map(m),
        None => None,
    });
    let url_embed_map = (match spec_get(v, "urlEmbedMap"@) {
        Some(m) => spec_parse_url_embed_map(m),
        None => None,
    });
    if blocks is Some && image_map is Some && file_map is Some && embed_map is Some
        && url_embed_map is Some {
        Some(
            ArticleBodyView {
                blocks: blocks->0,
                image_map: image_map->0,
                file_map: file_map->0,
                embed_map: embed_map->0,
                url_embed_map: url_embed_map->0,
            },
        )
    } else {
        None
    }
}

pub fn parse_article_body(v: &JsonValue) -> (r: Option<PostBodyArticleBody>)
    ensures
        r.deep_view() == spec_parse_article_body(*v),
{
    let blocks = match v.get("blocks") {
        Some(JsonValue::Arr(vs)) => match parse_blocks(vs) {
            Some(x) => x,
            None => { return None },
        },
        _ => { return None },
    };
    let image_map = match v.get("imageMap") {
        Some(m) => match parse_image_map(m) {
            Some(x) => x,
            None => { return None },
        },
        None => { return None },
    };
    let file_map = match v.get("fileMap") {
        Some(m) => match parse_file_map(m) {
            Some(x) => x,
            None => { return None },
        },
        None => { return None },
    };
    let embed_map = match v.get("embedMap") {
        Some(m) => match parse_embed_map(m) {
            Some(x) => x,
            None => { return None },
        },
        None => { return None },
    };
    let url_embed_map = match v.get("urlEmbedMap") {
        Some(m) => match parse_url_embed_map(m) {
            Some(x) => x,
            None => { return None },
        },
        None => { return None },
    };
    Some(PostBodyArticleBody { blocks, image_map, file_map, embed_map, url_embed_map })
}

/// The body envelope of a file post: the trailing text and the ordered
/// file list.
pub open spec fn spec_parse_file_body(v: JsonValue) -> Option<FileBodyView> {
    let text = spec_get_str(v, "text"@);
    let files = (match spec_get(v, "files"@) {
        Some(JsonValue::Arr(vs)) => spec_parse_files(vs@),
        _ => None,
    });
    if text is Some && files is Some {
        Some(FileBodyView { text: text->0, files: files->0 })
    } else {
        None
    }
}

pub fn parse_file_body(v: &JsonValue) -> (r: Option<PostBodyFileBody>)
    ensures
        r.deep_view() == spec_parse_file_body(*v),
{
    let text = match v.get_str("text") {
        Some(s) => s,
        None => { return None },
    };
    let files = match v.get("files") {
        Some(JsonValue::Arr(vs)) => match parse_files(vs) {
            Some(x) => x,
            None => { return None },
        },
        _ => { return None },
    };
    Some(PostBodyFileBody { text, files })
}

/// A post body routed by exact match on the envelope's `type` tag; any
/// unrecognized tag lands on `Unknown`, so schema growth never fails the
/// enclosing post.
pub open spec fn spec_parse_tagged_body(v: JsonValue, tag: Seq<char>) -> Option<PostBodyView> {
    if tag == "image"@ {
        match spec_get(v, "body"@) {
            Some(b) => match spec_parse_image_body(b) {
                Some(ib) => Some(PostBodyView::Image(ib)),
                None => None,
            },
            None => None,
        }
    } else if tag == "article"@ {
        match spec_get(v, "body"@) {
            Some(b) => match spec_parse_article_body(b) {
                Some(ab) => Some(PostBodyView::Article(ab)),
                None => None,
            },
            None => None,
        }
    } else if tag == "file"@ {
        match spec_get(v, "body"@) {
            Some(b) => match spec_parse_file_body(b) {
                Some(fb) => Some(PostBodyView::File(fb)),
                None => None,
            },
            None => None,
        }
    } else if tag == "text"@ {
        match spec_get(v, "body"@) {
            Some(b) => match spec_get_str(b, "text"@) {
                Some(text) => Some(PostBodyView::Text { text }),
                None => None,
            },
            None => None,
        }
    } else {
        Some(PostBodyView::Unknown)
    }
}

pub fn parse_tagged_body(v: &JsonValue, tag: &str) -> (r: Option<PostBody>)
    ensures
        r.deep_view() == spec_parse_tagged_body(*v, tag@),
{
    if str_eq(tag, "image") {
        let b = match v.get("body") {
            Some(b) => b,
            None => { return None },
        };
        match parse_image_body(b) {
            Some(ib) => Some(PostBody::Image(PostBodyImage { body: ib })),
            None => None,
        }
    } else if str_eq(tag, "article") {
        let b = match v.get("body") {
            Some(b) => b,
            None => { return None },
        };
        match parse_article_body(b) {
            Some(ab) => Some(PostBody::Article(PostBodyArticle { body: ab })),
            None => None,
        }
    } else if str_eq(tag, "file") {
        let b = match v.get("body") {
            Some(b) => b,
            None => { return None },
        };
        match parse_file_body(b) {
            Some(fb) => Some(PostBody::File(PostBodyFile { body: fb })),
            None => None,
        }
    } else if str_eq(tag, "text") {
        let b = match v.get("body") {
            Some(b) => b,
            None => { return None },
        };
        match b.get_str("text") {
            Some(text) => Some(PostBody::Text(PostBodyText { body: PostBodyTextBody { text } })),
            None => None,
        }
    } else {
        Some(PostBody::Unknown)
    }
}

/// The optional cover image URL: absent or `null` mean a post without a
/// cover, any non-string value is malformed.
pub open spec fn spec_parse_cover(v: JsonValue) -> Option<Option<Seq<char>>> {
    match spec_get(v, "coverImageUrl"@) {
        None => Some(None),
        Some(JsonValue::Null) => Some(None),
        Some(JsonValue::Str(s)) => Some(Some(s@)),
        Some(_) => None,
    }
}

/// The post's last-updated time, an RFC 3339 string on the wire.
pub open spec fn spec_parse_updated(v: JsonValue) -> Option<Timestamp> {
    match spec_get_str(v, "updatedDatetime"@) {
        Some(s) => match rfc3339_of(s) {
            Some(p) => Some(Timestamp { secs: p.0, nanos: p.1 }),
            None => None,
        },
        None => None,
    }
}

/// The metadata fields shared by every post shape.
pub open spec fn spec_parse_info(v: JsonValue) -> Option<PostInfoView> {
    let id = spec_get_str(v, "id"@);
    let title = spec_get_str(v, "title"@);
    let cover = spec_parse_cover(v);
    let updated = spec_parse_updated(v);
    let creator = spec_get_str(v, "creatorId"@);
    if id is Some && title is Some && cover is Some && updated is Some && creator is Some {
        Some(
            PostInfoView {
                id: id->0,
                title: title->0,
                cover_image_url: cover->0,
                updated_datetime: updated->0,
                creator_id: creator->0,
            },
        )
    } else {
        None
    }
}

pub fn parse_info(v: &JsonValue) -> (r: Option<PostInfo>)
    ensures
        r.deep_view() == spec_parse_info(*v),
{
    let id = match v.get_str("id") {
        Some(s) => s,
        None => { return None },
    };
    let title = match v.get_str("title") {
        Some(s) => s,
        None => { return None },
    };
    let cover_image_url = match v.get("coverImageUrl") {
        None => None,
        Some(JsonValue::Null) => None,
        Some(JsonValue::Str(s)) => Some(s.clone()),
        Some(_) => { return None },
    };
    let updated_datetime = match v.get_str("updatedDatetime") {
        Some(s) => match parse_rfc3339(s.as_str()) {
            Some(t) => t,
            None => { return None },
        },
        None => { return None },
    };
    let creator_id = match v.get_str("creatorId") {
        Some(s) => s,
        None => { return None },
    };
    Some(PostInfo { id, title, cover_image_url, updated_datetime, creator_id })
}

/// One post object: the flattened metadata plus the optional tagged body.
/// A missing `type` tag means the caller may not view the post and maps to
/// `body == None`; a tag that is present but not a string is malformed.
pub open spec fn spec_parse_post(v: JsonValue) -> Option<PostView> {
    match spec_parse_info(v) {
        None => None,
        Some(info) => match spec_get(v, "type"@) {
            None => Some(PostView { info, body: None }),
            Some(JsonValue::Str(t)) => match spec_parse_tagged_body(v, t@) {
                Some(b) => Some(PostView { info, body: Some(b) }),
                None => None,
            },
            Some(_) => None,
        },
    }
}

pub fn parse_post(v: &JsonValue) -> (r: Option<Post>)
    ensures
        r.deep_view() == spec_parse_post(*v),
{
    let info = match parse_info(v) {
        Some(x) => x,
        None => { return None },
    };
    let tag = match v.get("type") {
        None => { return Some(Post { info, body: None }) },
        Some(JsonValue::Str(s)) => s.clone(),
        Some(_) => { return None },
    };
    match parse_tagged_body(v, tag.as_str()) {
        Some(b) => Some(Post { info, body: Some(b) }),
        None => None,
    }
}

/// The single-post endpoint's response envelope: a `body` field holding
/// the post.
pub open spec fn spec_parse_post_response(v: JsonValue) -> Option<PostView> {
    match spec_get(v, "body"@) {
        Some(b) => spec_parse_post(b),
        None => None,
    }
}

pub fn parse_post_response(v: &JsonValue) -> (r: Option<Post>)
    ensures
        r.deep_view() == spec_parse_post_response(*v),
{
    match v.get("body") {
        Some(b) => parse_post(b),
        None => None,
    }
}

/// An all-or-nothing parse of an array of strings, kept in order.
pub open spec fn spec_parse_strings(vs: Seq<JsonValue>) -> Option<Seq<Seq<char>>>
    decreases vs.len(),
{
    if vs.len() == 0 {
        Some(Seq::empty())
    } else {
        match (spec_parse_strings(vs.drop_last()), vs.last()) {
            (Some(s), JsonValue::Str(x)) => Some(s.push(x@)),
            _ => None,
        }
    }
}

/// The pagination-index response: a `body` field holding the ordered list
/// of opaque page URLs. The URLs carry no assumed structure.
pub open spec fn spec_parse_page_urls(v: JsonValue) -> Option<Seq<Seq<char>>> {
    match spec_get(v, "body"@) {
        Some(JsonValue::Arr(vs)) => spec_parse_strings(vs@),
        _ => None,
    }
}

pub fn parse_page_urls(v: &JsonValue) -> (r: Option<Vec<String>>)
    ensures
        r.deep_view() == spec_parse_page_urls(*v),
{
    let arr = match v.get("body") {
        Some(JsonValue::Arr(vs)) => vs,
        _ => { return None },
    };
    let n = arr.len();
    let mut acc: Vec<String> = Vec::new();
    let mut ok = true;
    let mut i: usize = 0;
    proof {
        assert(arr@.take(0) =~= Seq::<JsonValue>::empty());
        assert(acc.deep_view() =~= Seq::<Seq<char>>::empty());
    }
    while i < n
        invariant
            i <= n,
            n == arr.len(),
            ok ==> spec_parse_strings(arr@.take(i as int)) == Some(acc.deep_view()),
            !ok ==> spec_parse_strings(arr@.take(i as int)) is None,
        decreases n - i,
    {
        proof {
            assert(arr@.take(i as int + 1).drop_last() =~= arr@.take(i as int));
            assert(arr@.take(i as int + 1).last() == arr@[i as int]);
        }
        if ok {
            match &arr[i] {
                JsonValue::Str(s) => push_dv(&mut acc, s.clone()),
                _ => { ok = false },
            }
        }
        i = i + 1;
    }
    proof {
        assert(arr@.take(n as int) =~= arr@);
    }
    if ok {
        Some(acc)
    } else {
        None
    }
}

/// One listing entry: an object with the post's `id`.
pub open spec fn spec_parse_item(v: JsonValue) -> Option<ListCreatorItemView> {
    match spec_get_str(v, "id"@) {
        Some(id) => Some(ListCreatorItemView { id }),
        None => None,
    }
}

/// An all-or-nothing parse of a page's listing entries, kept in order.
pub open spec fn spec_parse_items(vs: Seq<JsonValue>) -> Option<Seq<ListCreatorItemView>>
    decreases vs.len(),
{
    if vs.len() == 0 {
        Some(Seq::empty())
    } else {
        match (spec_parse_items(vs.drop_last()), spec_parse_item(vs.last())) {
            (Some(s), Some(x)) => Some(s.push(x)),
            _ => None,
        }
    }
}

/// The per-page listing response: a `body` envelope holding `items`, the
/// ordered post summaries of that page.
pub open spec fn spec_parse_page_items(v: JsonValue) -> Option<Seq<ListCreatorItemView>> {
    match spec_get(v, "body"@) {
        Some(b) => match spec_get(b, "items"@) {
            Some(JsonValue::Arr(vs)) => spec_parse_items(vs@),
            _ => None,
        },
        None => None,
    }
}

pub fn parse_page_items(v: &JsonValue) -> (r: Option<Vec<ListCreatorItem>>)
    ensures
        r.deep_view() == spec_parse_page_items(*v),
{
    let b = match v.get("body") {
        Some(b) => b,
        None => { return None },
    };
    let arr = match b.get("items") {
        Some(JsonValue::Arr(vs)) => vs,
        _ => { return None },
    };
    let n = arr.len();
    let mut acc: Vec<ListCreatorItem> = Vec::new();
    let mut ok = true;
    let mut i: usize = 0;
    proof {
        assert(arr@.take(0) =~= Seq::<JsonValue>::empty());
        assert(acc.deep_view() =~= Seq::<ListCreatorItemView>::empty());
    }
    while i < n
        invariant
            i <= n,
            n == arr.len(),
            ok ==> spec_parse_items(arr@.take(i as int)) == Some(acc.deep_view()),
            !ok ==> spec_parse_items(arr@.take(i as int)) is None,
        decreases n - i,
    {
        proof {
            assert(arr@.take(i as int + 1).drop_last() =~= arr@.take(i as int));
            assert(arr@.take(i as int + 1).last() == arr@[i as int]);
        }
        if ok {
            match arr[i].get_str("id") {
                Some(id) => push_dv(&mut acc, ListCreatorItem { id }),
                None => { ok = false },
            }
        }
        i = i + 1;
    }
    proof {
        assert(arr@.take(n as int) =~= arr@);
    }
    if ok {
        Some(acc)
    } else {
        None
    }
}

/// Decodes a single-post response, mapping a malformed document to the
/// read-failure error kind, exactly when the parse yields nothing.
pub fn decode_post_response(v: &JsonValue) -> (r: Result<Post, Error>)
    ensures
        (r matches Ok(p) ==> spec_parse_post_response(*v) == Some(p.deep_view())),
        (r is Err ==> spec_parse_post_response(*v) is None),
        (r matches Err(e) ==> e matches Error::HttpReadError { .. }),
{
    match parse_post_response(v) {
        Some(p) => Ok(p),
        None => Err(
            Error::HttpReadError {
                detail: String::from_str("response does not match the post info schema"),
            },
        ),
    }
}

/// Decodes a pagination-index response; malformed means read failure.
pub fn decode_page_urls(v: &JsonValue) -> (r: Result<Vec<String>, Error>)
    ensures
        (r matches Ok(urls) ==> spec_parse_page_urls(*v) == Some(urls.deep_view())),
        (r is Err ==> spec_parse_page_urls(*v) is None),
        (r matches Err(e) ==> e matches Error::HttpReadError { .. }),
{
    match parse_page_urls(v) {
        Some(urls) => Ok(urls),
        None => Err(
            Error::HttpReadError {
                detail: String::from_str("response does not match the pagination index schema"),
            },
        ),
    }
}

/// Decodes a per-page listing response; malformed means read failure.
pub fn decode_page_items(v: &JsonValue) -> (r: Result<Vec<ListCreatorItem>, Error>)
    ensures
        (r matches Ok(items) ==> spec_parse_page_items(*v) == Some(items.deep_view())),
        (r is Err ==> spec_parse_page_items(*v) is None),
        (r matches Err(e) ==> e matches Error::HttpReadError { .. }),
{
    match parse_page_items(v) {
        Some(items) => Ok(items),
        None => Err(
            Error::HttpReadError {
                detail: String::from_str("response does not match the page listing schema"),
            },
        ),
    }
}

/// A post whose body tag is none of the four known values parses to the
/// `Unknown` body instead of failing: the enclosing post still parses
/// exactly when its metadata does, and then carries `Unknown` as its body.
pub proof fn lemma_unknown_tag_tolerated(v: JsonValue, t: Seq<char>)
    requires
        (spec_get(v, "type"@) matches Some(x) && x matches JsonValue::Str(s) && s@ == t),
        t != "image"@,
        t != "article"@,
        t != "file"@,
        t != "text"@,
    ensures
        spec_parse_tagged_body(v, t) == Some(PostBodyView::Unknown),
        spec_parse_post(v) is Some <==> spec_parse_info(v) is Some,
        (spec_parse_post(v) matches Some(p) ==> p.body == Some(PostBodyView::Unknown) && Some(
            p.info,
        ) == spec_parse_info(v)),
{
}

} // verus!
