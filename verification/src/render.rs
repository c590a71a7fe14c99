use vstd::prelude::*;
use vstd::string::StringExecFns;
use crate::client::{post_url, spec_post_url};
use crate::model::{
    ArticleBlock, ArticleBlockView, ArticleBodyView, FileBodyView, FileView, ImageBodyView,
    ImageView, Post, PostBody, PostBodyArticleBody, PostBodyFileBody, PostBodyImageBody,
    PostBodyView, PostInfo, PostInfoView, PostView, Timestamp, UrlEmbed, UrlEmbedView,
};
use crate::util::{push_dv, str_eq};

verus! {

/// One step of a post's rendering plan, in the exact order the pipeline
/// must perform them: fetch a resource into a file of the post's
/// directory, emit one line of the document, or report a recoverable
/// condition and go on.
#[derive(Debug, PartialEq)]
pub enum RenderAction {
    Download { url: String, file_name: String },
    Line(String),
    Warning(String),
}

pub enum RenderActionView {
    Download { url: Seq<char>, file_name: Seq<char> },
    Line(Seq<char>),
    Warning(Seq<char>),
}

impl DeepView for RenderAction {
    type V = RenderActionView;

    open spec fn deep_view(&self) -> RenderActionView {
        match self {
            RenderAction::Download { url, file_name } => RenderActionView::Download {
                url: url@,
                file_name: file_name@,
            },
            RenderAction::Line(s) => RenderActionView::Line(s@),
            RenderAction::Warning(s) => RenderActionView::Warning(s@),
        }
    }
}

/// First association whose key is `key`, if any. The article maps have
/// unique keys on the wire, so this is plain map lookup.
pub open spec fn spec_assoc_get<V>(entries: Seq<(Seq<char>, V)>, key: Seq<char>) -> Option<V>
    decreases entries.len(),
{
    if entries.len() == 0 {
        None
    } else if entries[0].0 == key {
        Some(entries[0].1)
    } else {
        spec_assoc_get(entries.skip(1), key)
    }
}

/// Looks a key up in one of the article's cross-reference maps.
pub fn assoc_get<'a, T: DeepView>(entries: &'a Vec<(String, T)>, key: &str) -> (r: Option<&'a T>)
    ensures
        (match r {
            Some(x) => spec_assoc_get(entries.deep_view(), key@) == Some(x.deep_view()),
            None => spec_assoc_get(entries.deep_view(), key@) is None,
        }),
{
    let n = entries.len();
    let mut i: usize = 0;
    proof {
        assert(entries.deep_view().skip(0) =~= entries.deep_view());
    }
    while i < n
        invariant
            i <= n,
            n == entries.len(),
            spec_assoc_get(entries.deep_view(), key@) == spec_assoc_get(
                entries.deep_view().skip(i as int),
                key@,
            ),
        decreases n - i,
    {
        proof {
            assert(entries.deep_view()[i as int] == entries@[i as int].deep_view());
            assert(entries.deep_view().skip(i as int)[0] == entries.deep_view()[i as int]);
            assert(entries.deep_view().skip(i as int).skip(1) =~= entries.deep_view().skip(
                i as int + 1,
            ));
        }
        if str_eq(entries[i].0.as_str(), key) {
            let r = &entries[i].1;
            proof {
                assert(spec_assoc_get(entries.deep_view().skip(i as int), key@) == Some(
                    entries@[i as int].1.deep_view(),
                ));
            }
            return Some(r);
        }
        i = i + 1;
    }
    proof {
        assert(entries.deep_view().skip(n as int).len() == 0);
    }
    None
}

/// `{id}.{extension}`: the name an asset is stored under in the post's
/// directory.
pub open spec fn spec_asset_name(id: Seq<char>, extension: Seq<char>) -> Seq<char> {
    id + "."@ + extension
}

pub fn asset_name(id: &str, extension: &str) -> (r: String)
    ensures
        r@ == spec_asset_name(id@, extension@),
{
    let mut s = String::from_str(id);
    s.append(".");
    s.append(extension);
    proof {
        assert(s@ =~= spec_asset_name(id@, extension@));
    }
    s
}

/// The title line linking to the post's canonical URL.
pub open spec fn spec_title_line(creator_id: Seq<char>, id: Seq<char>, title: Seq<char>) -> Seq<
    char,
> {
    "<h1><a href='"@ + spec_post_url(creator_id, id) + "'>"@ + title + "</a></h1>"@
}

pub fn title_line(creator_id: &str, id: &str, title: &str) -> (r: String)
    ensures
        r@ == spec_title_line(creator_id@, id@, title@),
{
    let mut s = String::from_str("<h1><a href='");
    let u = post_url(creator_id, id);
    s.append(u.as_str());
    s.append("'>");
    s.append(title);
    s.append("</a></h1>");
    proof {
        assert(s@ =~= spec_title_line(creator_id@, id@, title@));
    }
    s
}

/// The cover image fragment; the cover is always stored as
/// `cover_image.jpeg`.
pub open spec fn spec_cover_img_line(url: Seq<char>) -> Seq<char> {
    "<img alt='"@ + url + "' src='./cover_image.jpeg'>"@
}

pub fn cover_img_line(url: &str) -> (r: String)
    ensures
        r@ == spec_cover_img_line(url@),
{
    let mut s = String::from_str("<img alt='");
    s.append(url);
    s.append("' src='./cover_image.jpeg'>");
    proof {
        assert(s@ =~= spec_cover_img_line(url@));
    }
    s
}

/// A full-width image fragment for a downloaded image asset.
pub open spec fn spec_image_fragment(url: Seq<char>, id: Seq<char>, extension: Seq<char>) -> Seq<
    char,
> {
    "<img alt='"@ + url + "' src='./"@ + spec_asset_name(id, extension) + "' style='width: 100%;'>"@
}

pub fn image_fragment(url: &str, id: &str, extension: &str) -> (r: String)
    ensures
        r@ == spec_image_fragment(url@, id@, extension@),
{
    let mut s = String::from_str("<img alt='");
    s.append(url);
    s.append("' src='./");
    let name = asset_name(id, extension);
    s.append(name.as_str());
    s.append("' style='width: 100%;'>");
    proof {
        assert(s@ =~= spec_image_fragment(url@, id@, extension@));
    }
    s
}

/// A paragraph wrapper around arbitrary content.
pub open spec fn spec_wrap_p(text: Seq<char>) -> Seq<char> {
    "<p>"@ + text + "</p>"@
}

pub fn wrap_p(text: &str) -> (r: String)
    ensures
        r@ == spec_wrap_p(text@),
{
    let mut s = String::from_str("<p>");
    s.append(text);
    s.append("</p>");
    proof {
        assert(s@ =~= spec_wrap_p(text@));
    }
    s
}

/// A heading fragment for a header block.
pub open spec fn spec_header_line(text: Seq<char>) -> Seq<char> {
    "<h2>"@ + text + "</h2>"@
}

pub fn header_line(text: &str) -> (r: String)
    ensures
        r@ == spec_header_line(text@),
{
    let mut s = String::from_str("<h2>");
    s.append(text);
    s.append("</h2>");
    proof {
        assert(s@ =~= spec_header_line(text@));
    }
    s
}

/// A link fragment for a downloaded file asset, showing its display name.
pub open spec fn spec_file_link(id: Seq<char>, extension: Seq<char>, name: Seq<char>) -> Seq<
    char,
> {
    "<a href='./"@ + spec_asset_name(id, extension) + "'>"@ + name + "</a>"@
}

pub fn file_link(id: &str, extension: &str, name: &str) -> (r: String)
    ensures
        r@ == spec_file_link(id@, extension@, name@),
{
    let mut s = String::from_str("<a href='./");
    let an = asset_name(id, extension);
    s.append(an.as_str());
    s.append("'>");
    s.append(name);
    s.append("</a>");
    proof {
        assert(s@ =~= spec_file_link(id@, extension@, name@));
    }
    s
}

/// An anchor for a plain URL embed; no download happens for these.
pub open spec fn spec_url_anchor(url: Seq<char>) -> Seq<char> {
    "<a href='"@ + url + "'>"@ + url + "</a>"@
}

pub fn url_anchor(url: &str) -> (r: String)
    ensures
        r@ == spec_url_anchor(url@),
{
    let mut s = String::from_str("<a href='");
    s.append(url);
    s.append("'>");
    s.append(url);
    s.append("</a>");
    proof {
        assert(s@ =~= spec_url_anchor(url@));
    }
    s
}

/// The warning for an image reference missing from `imageMap`.
pub open spec fn spec_image_warning(id: Seq<char>) -> Seq<char> {
    "image "@ + id + " is not available in imageMap"@
}

pub fn image_warning(id: &str) -> (r: String)
    ensures
        r@ == spec_image_warning(id@),
{
    let mut s = String::from_str("image ");
    s.append(id);
    s.append(" is not available in imageMap");
    proof {
        assert(s@ =~= spec_image_warning(id@));
    }
    s
}

/// The warning for a file reference missing from `fileMap`.
pub open spec fn spec_file_warning(id: Seq<char>) -> Seq<char> {
    "file "@ + id + " is not available in fileMap"@
}

pub fn file_warning(id: &str) -> (r: String)
    ensures
        r@ == spec_file_warning(id@),
{
    let mut s = String::from_str("file ");
    s.append(id);
    s.append(" is not available in fileMap");
    proof {
        assert(s@ =~= spec_file_warning(id@));
    }
    s
}

/// The warning for a URL-embed reference missing from `urlEmbedMap`.
pub open spec fn spec_url_embed_warning(id: Seq<char>) -> Seq<char> {
    "url_embed "@ + id + " is not available in urlEmbedMap"@
}

pub fn url_embed_warning(id: &str) -> (r: String)
    ensures
        r@ == spec_url_embed_warning(id@),
{
    let mut s = String::from_str("url_embed ");
    s.append(id);
    s.append(" is not available in urlEmbedMap");
    proof {
        assert(s@ =~= spec_url_embed_warning(id@));
    }
    s
}

/// The warning for a post whose body the caller may not view.
pub open spec fn spec_permission_warning(creator_id: Seq<char>, id: Seq<char>) -> Seq<char> {
    "You don't have permission to see post "@ + spec_post_url(creator_id, id)
}

pub fn permission_warning(creator_id: &str, id: &str) -> (r: String)
    ensures
        r@ == spec_permission_warning(creator_id@, id@),
{
    let mut s = String::from_str("You don't have permission to see post ");
    let u = post_url(creator_id, id);
    s.append(u.as_str());
    proof {
        assert(s@ =~= spec_permission_warning(creator_id@, id@));
    }
    s
}

/// The common opening of image, file and text posts: the title line, then,
/// when a cover is present, its download and a wrapped image fragment.
pub open spec fn spec_prefix_wrapped(info: PostInfoView) -> Seq<RenderActionView> {
    seq![RenderActionView::Line(spec_title_line(info.creator_id, info.id, info.title))] + (
    match info.cover_image_url {
        None => Seq::<RenderActionView>::empty(),
        Some(url) => seq![
            RenderActionView::Download { url, file_name: "cover_image.jpeg"@ },
            RenderActionView::Line("<p>"@),
            RenderActionView::Line(spec_cover_img_line(url)),
            RenderActionView::Line("</p>"@),
        ],
    })
}

/// The common opening of article posts, whose cover fragment is emitted as
/// a single wrapped line.
pub open spec fn spec_prefix_article(info: PostInfoView) -> Seq<RenderActionView> {
    seq![RenderActionView::Line(spec_title_line(info.creator_id, info.id, info.title))] + (
    match info.cover_image_url {
        None => Seq::<RenderActionView>::empty(),
        Some(url) => seq![
            RenderActionView::Download { url, file_name: "cover_image.jpeg"@ },
            RenderActionView::Line(spec_wrap_p(spec_cover_img_line(url))),
        ],
    })
}

fn push_prefix_wrapped(acc: &mut Vec<RenderAction>, info: &PostInfo)
    ensures
        final(acc).deep_view() == old(acc).deep_view() + spec_prefix_wrapped(info.deep_view()),
{
    let ghost pre = acc.deep_view();
    push_dv(
        acc,
        RenderAction::Line(
            title_line(info.creator_id.as_str(), info.id.as_str(), info.title.as_str()),
        ),
    );
    match &info.cover_image_url {
        Some(url) => {
            push_dv(
                acc,
                RenderAction::Download {
                    url: url.clone(),
                    file_name: String::from_str("cover_image.jpeg"),
                },
            );
            push_dv(acc, RenderAction::Line(String::from_str("<p>")));
            push_dv(acc, RenderAction::Line(cover_img_line(url.as_str())));
            push_dv(acc, RenderAction::Line(String::from_str("</p>")));
        },
        None => {},
    }
    proof {
        assert(acc.deep_view() =~= pre + spec_prefix_wrapped(info.deep_view()));
    }
}

fn push_prefix_article(acc: &mut Vec<RenderAction>, info: &PostInfo)
    ensures
        final(acc).deep_view() == old(acc).deep_view() + spec_prefix_article(info.deep_view()),
{
    let ghost pre = acc.deep_view();
    push_dv(
        acc,
        RenderAction::Line(
            title_line(info.creator_id.as_str(), info.id.as_str(), info.title.as_str()),
        ),
    );
    match &info.cover_image_url {
        Some(url) => {
            push_dv(
                acc,
                RenderAction::Download {
                    url: url.clone(),
                    file_name: String::from_str("cover_image.jpeg"),
                },
            );
            let line = wrap_p(cover_img_line(url.as_str()).as_str());
            push_dv(acc, RenderAction::Line(line));
        },
        None => {},
    }
    proof {
        assert(acc.deep_view() =~= pre + spec_prefix_article(info.deep_view()));
    }
}

/// The two actions of one image of an image post: the download, then the
/// wrapped full-width fragment.
pub open spec fn spec_image_item(img: ImageView) -> Seq<RenderActionView> {
    seq![
        RenderActionView::Download {
            url: img.original_url,
            file_name: spec_asset_name(img.id, img.extension),
        },
        RenderActionView::Line(
            spec_wrap_p(spec_image_fragment(img.original_url, img.id, img.extension)),
        ),
    ]
}

/// All images of an image post, in declared order.
pub open spec fn spec_image_items(imgs: Seq<ImageView>) -> Seq<RenderActionView>
    decreases imgs.len(),
{
    if imgs.len() == 0 {
        Seq::empty()
    } else {
        spec_image_items(imgs.drop_last()) + spec_image_item(imgs.last())
    }
}

/// The full plan of an image post: opening, every image in order, then the
/// trailing body text.
pub open spec fn spec_render_image(info: PostInfoView, body: ImageBodyView) -> Seq<
    RenderActionView,
> {
    spec_prefix_wrapped(info) + spec_image_items(body.images) + seq![
        RenderActionView::Line(spec_wrap_p(body.text)),
    ]
}

pub fn render_image_post(info: &PostInfo, body: &PostBodyImageBody) -> (r: Vec<RenderAction>)
    ensures
        r.deep_view() == spec_render_image(info.deep_view(), body.deep_view()),
{
    let mut acc: Vec<RenderAction> = Vec::new();
    push_prefix_wrapped(&mut acc, info);
    let n = body.images.len();
    let mut i: usize = 0;
    proof {
        assert(body.images.deep_view().take(0) =~= Seq::<ImageView>::empty());
        assert(acc.deep_view() =~= spec_prefix_wrapped(info.deep_view()) + spec_image_items(
            body.images.deep_view().take(0),
        ));
    }
    while i < n
        invariant
            i <= n,
            n == body.images.len(),
            acc.deep_view() == spec_prefix_wrapped(info.deep_view()) + spec_image_items(
                body.images.deep_view().take(i as int),
            ),
        decreases n - i,
    {
        let ghost pre = acc.deep_view();
        let img = &body.images[i];
        push_dv(
            &mut acc,
            RenderAction::Download {
                url: img.original_url.clone(),
                file_name: asset_name(img.id.as_str(), img.extension.as_str()),
            },
        );
        let frag = image_fragment(
            img.original_url.as_str(),
            img.id.as_str(),
            img.extension.as_str(),
        );
        push_dv(&mut acc, RenderAction::Line(wrap_p(frag.as_str())));
        proof {
            let imgs = body.images.deep_view();
            assert(imgs.take(i as int + 1).drop_last() =~= imgs.take(i as int));
            assert(imgs.take(i as int + 1).last() == imgs[i as int]);
            assert(imgs[i as int] == body.images@[i as int].deep_view());
            assert(acc.deep_view() =~= pre + spec_image_item(imgs[i as int]));
            assert(acc.deep_view() =~= spec_prefix_wrapped(info.deep_view()) + spec_image_items(
                imgs.take(i as int + 1),
            ));
        }
        i = i + 1;
    }
    push_dv(&mut acc, RenderAction::Line(wrap_p(body.text.as_str())));
    proof {
        assert(body.images.deep_view().take(n as int) =~= body.images.deep_view());
        assert(acc.deep_view() =~= spec_render_image(info.deep_view(), body.deep_view()));
    }
    acc
}

/// The four actions of one file of a file post: the download, then the
/// wrapped link fragment.
pub open spec fn spec_file_item(f: FileView) -> Seq<RenderActionView> {
    seq![
        RenderActionView::Download { url: f.url, file_name: spec_asset_name(f.id, f.extension) },
        RenderActionView::Line("<p>"@),
        RenderActionView::Line(spec_file_link(f.id, f.extension, f.name)),
        RenderActionView::Line("</p>"@),
    ]
}

/// All files of a file post, in declared order.
pub open spec fn spec_file_items(fs: Seq<FileView>) -> Seq<RenderActionView>
    decreases fs.len(),
{
    if fs.len() == 0 {
        Seq::empty()
    } else {
        spec_file_items(fs.drop_last()) + spec_file_item(fs.last())
    }
}

/// The full plan of a file post: opening, every file in order, then the
/// trailing body text.
pub open spec fn spec_render_file(info: PostInfoView, body: FileBodyView) -> Seq<
    RenderActionView,
> {
    spec_prefix_wrapped(info) + spec_file_items(body.files) + seq![
        RenderActionView::Line(spec_wrap_p(body.text)),
    ]
}

pub fn render_file_post(info: &PostInfo, body: &PostBodyFileBody) -> (r: Vec<RenderAction>)
    ensures
        r.deep_view() == spec_render_file(info.deep_view(), body.deep_view()),
{
    let mut acc: Vec<RenderAction> = Vec::new();
    push_prefix_wrapped(&mut acc, info);
    let n = body.files.len();
    let mut i: usize = 0;
    proof {
        assert(body.files.deep_view().take(0) =~= Seq::<FileView>::empty());
        assert(acc.deep_view() =~= spec_prefix_wrapped(info.deep_view()) + spec_file_items(
            body.files.deep_view().take(0),
        ));
    }
    while i < n
        invariant
            i <= n,
            n == body.files.len(),
            acc.deep_view() == spec_prefix_wrapped(info.deep_view()) + spec_file_items(
                body.files.deep_view().take(i as int),
            ),
        decreases n - i,
    {
        let ghost pre = acc.deep_view();
        let f = &body.files[i];
        push_dv(
            &mut acc,
            RenderAction::Download {
                url: f.url.clone(),
                file_name: asset_name(f.id.as_str(), f.extension.as_str()),
            },
        );
        push_dv(&mut acc, RenderAction::Line(String::from_str("<p>")));
        push_dv(
            &mut acc,
            RenderAction::Line(file_link(f.id.as_str(), f.extension.as_str(), f.name.as_str())),
        );
        push_dv(&mut acc, RenderAction::Line(String::from_str("</p>")));
        proof {
            let fs = body.files.deep_view();
            assert(fs.take(i as int + 1).drop_last() =~= fs.take(i as int));
            assert(fs.take(i as int + 1).last() == fs[i as int]);
            assert(fs[i as int] == body.files@[i as int].deep_view());
            assert(acc.deep_view() =~= pre + spec_file_item(fs[i as int]));
            assert(acc.deep_view() =~= spec_prefix_wrapped(info.deep_view()) + spec_file_items(
                fs.take(i as int + 1),
            ));
        }
        i = i + 1;
    }
    push_dv(&mut acc, RenderAction::Line(wrap_p(body.text.as_str())));
    proof {
        assert(body.files.deep_view().take(n as int) =~= body.files.deep_view());
        assert(acc.deep_view() =~= spec_render_file(info.deep_view(), body.deep_view()));
    }
    acc
}

/// The full plan of a text post: opening, then the body text.
pub open spec fn spec_render_text(info: PostInfoView, text: Seq<char>) -> Seq<RenderActionView> {
    spec_prefix_wrapped(info) + seq![RenderActionView::Line(spec_wrap_p(text))]
}

pub fn render_text_post(info: &PostInfo, text: &str) -> (r: Vec<RenderAction>)
    ensures
        r.deep_view() == spec_render_text(info.deep_view(), text@),
{
    let mut acc: Vec<RenderAction> = Vec::new();
    push_prefix_wrapped(&mut acc, info);
    push_dv(&mut acc, RenderAction::Line(wrap_p(text)));
    proof {
        assert(acc.deep_view() =~= spec_render_text(info.deep_view(), text@));
    }
    acc
}

/// True of a reference block whose id misses the map it points into.
pub open spec fn spec_block_dangling(b: ArticleBodyView, blk: ArticleBlockView) -> bool {
    match blk {
        ArticleBlockView::Image { image_id } => spec_assoc_get(b.image_map, image_id) is None,
        ArticleBlockView::File { file_id } => spec_assoc_get(b.file_map, file_id) is None,
        ArticleBlockView::UrlEmbed { url_embed_id } => spec_assoc_get(
            b.url_embed_map,
            url_embed_id,
        ) is None,
        _ => false,
    }
}

/// The warning a dangling reference block emits, naming the dangling id.
pub open spec fn spec_dangling_warning(blk: ArticleBlockView) -> Seq<char> {
    match blk {
        ArticleBlockView::Image { image_id } => spec_image_warning(image_id),
        ArticleBlockView::File { file_id } => spec_file_warning(file_id),
        ArticleBlockView::UrlEmbed { url_embed_id } => spec_url_embed_warning(url_embed_id),
        _ => Seq::empty(),
    }
}

/// The inner fragment of one resolvable article block: what stands between
/// its paragraph wrapper lines. An embed or unrecognized block contributes
/// nothing; a dangling reference never reaches the wrapper — see
/// `spec_block_actions`.
pub open spec fn spec_block_content(b: ArticleBodyView, blk: ArticleBlockView) -> Seq<
    RenderActionView,
> {
    match blk {
        ArticleBlockView::P { text } => seq![RenderActionView::Line(text)],
        ArticleBlockView::Header { text } => seq![RenderActionView::Line(spec_header_line(text))],
        ArticleBlockView::Image { image_id } => match spec_assoc_get(b.image_map, image_id) {
            Some(img) => seq![
                RenderActionView::Download {
                    url: img.original_url,
                    file_name: spec_asset_name(img.id, img.extension),
                },
                RenderActionView::Line(
                    spec_image_fragment(img.original_url, img.id, img.extension),
                ),
            ],
            None => Seq::empty(),
        },
        ArticleBlockView::File { file_id } => match spec_assoc_get(b.file_map, file_id) {
            Some(f) => seq![
                RenderActionView::Download {
                    url: f.url,
                    file_name: spec_asset_name(f.id, f.extension),
                },
                RenderActionView::Line(spec_file_link(f.id, f.extension, f.name)),
            ],
            None => Seq::empty(),
        },
        ArticleBlockView::Embed { .. } => Seq::empty(),
        ArticleBlockView::UrlEmbed { url_embed_id } => match spec_assoc_get(
            b.url_embed_map,
            url_embed_id,
        ) {
            Some(UrlEmbedView::Default { url }) => seq![RenderActionView::Line(spec_url_anchor(url))],
            Some(UrlEmbedView::Html { html }) => seq![RenderActionView::Line(html)],
            Some(UrlEmbedView::HtmlCard { html }) => seq![RenderActionView::Line(html)],
            Some(UrlEmbedView::Unknown) => Seq::empty(),
            None => Seq::empty(),
        },
        ArticleBlockView::Unknown => Seq::empty(),
    }
}

/// One article block's actions. A reference whose id misses its map emits
/// nothing for the block — no wrapper, no fragment, no download — only the
/// one warning naming the dangling id, and processing continues. Every
/// other block, embeds and unrecognized kinds included, gets the paragraph
/// wrapper pair around its content.
pub open spec fn spec_block_actions(b: ArticleBodyView, blk: ArticleBlockView) -> Seq<
    RenderActionView,
> {
    if spec_block_dangling(b, blk) {
        seq![RenderActionView::Warning(spec_dangling_warning(blk))]
    } else {
        seq![RenderActionView::Line("<p>"@)] + spec_block_content(b, blk) + seq![
            RenderActionView::Line("</p>"@),
        ]
    }
}

/// All blocks of an article, in the declared order: the document's
/// paragraph order.
pub open spec fn spec_article_blocks(b: ArticleBodyView, blocks: Seq<ArticleBlockView>) -> Seq<
    RenderActionView,
>
    decreases blocks.len(),
{
    if blocks.len() == 0 {
        Seq::empty()
    } else {
        spec_article_blocks(b, blocks.drop_last()) + spec_block_actions(b, blocks.last())
    }
}

/// The full plan of an article post.
pub open spec fn spec_render_article(info: PostInfoView, b: ArticleBodyView) -> Seq<
    RenderActionView,
> {
    spec_prefix_article(info) + spec_article_blocks(b, b.blocks)
}

pub fn render_article_post(info: &PostInfo, body: &PostBodyArticleBody) -> (r: Vec<RenderAction>)
    ensures
        r.deep_view() == spec_render_article(info.deep_view(), body.deep_view()),
{
    let mut acc: Vec<RenderAction> = Vec::new();
    push_prefix_article(&mut acc, info);
    let n = body.blocks.len();
    let mut i: usize = 0;
    proof {
        assert(body.deep_view().blocks.take(0) =~= Seq::<ArticleBlockView>::empty());
        assert(acc.deep_view() =~= spec_prefix_article(info.deep_view()) + spec_article_blocks(
            body.deep_view(),
            body.deep_view().blocks.take(0),
        ));
    }
    while i < n
        invariant
            i <= n,
            n == body.blocks.len(),
            acc.deep_view() == spec_prefix_article(info.deep_view()) + spec_article_blocks(
                body.deep_view(),
                body.deep_view().blocks.take(i as int),
            ),
        decreases n - i,
    {
        let ghost pre = acc.deep_view();
        let ghost bv = body.deep_view();
        let ghost blkv = bv.blocks[i as int];
        proof {
            assert(bv.blocks[i as int] == body.blocks@[i as int].deep_view());
            assert(bv.image_map == body.image_map.deep_view());
            assert(bv.file_map == body.file_map.deep_view());
            assert(bv.url_embed_map == body.url_embed_map.deep_view());
        }
        match &body.blocks[i] {
            ArticleBlock::P(p) => {
                push_dv(&mut acc, RenderAction::Line(String::from_str("<p>")));
                push_dv(&mut acc, RenderAction::Line(p.text.clone()));
                push_dv(&mut acc, RenderAction::Line(String::from_str("</p>")));
            },
            ArticleBlock::Header(h) => {
                push_dv(&mut acc, RenderAction::Line(String::from_str("<p>")));
                push_dv(&mut acc, RenderAction::Line(header_line(h.text.as_str())));
                push_dv(&mut acc, RenderAction::Line(String::from_str("</p>")));
            },
            ArticleBlock::Image(ib) => {
                match assoc_get(&body.image_map, ib.image_id.as_str()) {
                    Some(img) => {
                        push_dv(&mut acc, RenderAction::Line(String::from_str("<p>")));
                        push_dv(
                            &mut acc,
                            RenderAction::Download {
                                url: img.original_url.clone(),
                                file_name: asset_name(img.id.as_str(), img.extension.as_str()),
                            },
                        );
                        push_dv(
                            &mut acc,
                            RenderAction::Line(
                                image_fragment(
                                    img.original_url.as_str(),
                                    img.id.as_str(),
                                    img.extension.as_str(),
                                ),
                            ),
                        );
                        push_dv(&mut acc, RenderAction::Line(String::from_str("</p>")));
                    },
                    None => {
                        push_dv(
                            &mut acc,
                            RenderAction::Warning(image_warning(ib.image_id.as_str())),
                        );
                    },
                }
            },
            ArticleBlock::File(fb) => {
                match assoc_get(&body.file_map, fb.file_id.as_str()) {
                    Some(f) => {
                        push_dv(&mut acc, RenderAction::Line(String::from_str("<p>")));
                        push_dv(
                            &mut acc,
                            RenderAction::Download {
                                url: f.url.clone(),
                                file_name: asset_name(f.id.as_str(), f.extension.as_str()),
                            },
                        );
                        push_dv(
                            &mut acc,
                            RenderAction::Line(
                                file_link(f.id.as_str(), f.extension.as_str(), f.name.as_str()),
                            ),
                        );
                        push_dv(&mut acc, RenderAction::Line(String::from_str("</p>")));
                    },
                    None => {
                        push_dv(&mut acc, RenderAction::Warning(file_warning(fb.file_id.as_str())));
                    },
                }
            },
            ArticleBlock::Embed(_) => {
                push_dv(&mut acc, RenderAction::Line(String::from_str("<p>")));
                push_dv(&mut acc, RenderAction::Line(String::from_str("</p>")));
            },
            ArticleBlock::UrlEmbed(ub) => {
                match assoc_get(&body.url_embed_map, ub.url_embed_id.as_str()) {
                    Some(UrlEmbed::Default(d)) => {
                        push_dv(&mut acc, RenderAction::Line(String::from_str("<p>")));
                        push_dv(&mut acc, RenderAction::Line(url_anchor(d.url.as_str())));
                        push_dv(&mut acc, RenderAction::Line(String::from_str("</p>")));
                    },
                    Some(UrlEmbed::Html(h)) => {
                        push_dv(&mut acc, RenderAction::Line(String::from_str("<p>")));
                        push_dv(&mut acc, RenderAction::Line(h.html.clone()));
                        push_dv(&mut acc, RenderAction::Line(String::from_str("</p>")));
                    },
                    Some(UrlEmbed::HtmlCard(h)) => {
                        push_dv(&mut acc, RenderAction::Line(String::from_str("<p>")));
                        push_dv(&mut acc, RenderAction::Line(h.html.clone()));
                        push_dv(&mut acc, RenderAction::Line(String::from_str("</p>")));
                    },
                    Some(UrlEmbed::Unknown) => {
                        push_dv(&mut acc, RenderAction::Line(String::from_str("<p>")));
                        push_dv(&mut acc, RenderAction::Line(String::from_str("</p>")));
                    },
                    None => {
                        push_dv(
                            &mut acc,
                            RenderAction::Warning(url_embed_warning(ub.url_embed_id.as_str())),
                        );
                    },
                }
            },
            ArticleBlock::Unknown => {
                push_dv(&mut acc, RenderAction::Line(String::from_str("<p>")));
                push_dv(&mut acc, RenderAction::Line(String::from_str("</p>")));
            },
        }
        proof {
            assert(acc.deep_view() =~= pre + spec_block_actions(bv, blkv));
            assert(bv.blocks.take(i as int + 1).drop_last() =~= bv.blocks.take(i as int));
            assert(bv.blocks.take(i as int + 1).last() == bv.blocks[i as int]);
            assert(acc.deep_view() =~= spec_prefix_article(info.deep_view()) + spec_article_blocks(
                bv,
                bv.blocks.take(i as int + 1),
            ));
        }
        i = i + 1;
    }
    proof {
        assert(body.deep_view().blocks.take(n as int) =~= body.deep_view().blocks);
    }
    acc
}

/// What the pipeline does with one fetched post. A post without a viewable
/// body is skipped with exactly one warning and no directory or file is
/// produced for it; any other post gets a directory named by its id, the
/// rendered actions, and one modification time stamped on every file
/// written — the post's last-updated time.
#[derive(Debug, PartialEq)]
pub enum PostPlan {
    Skip { warning: String },
    Render { dir_name: String, mtime: Timestamp, actions: Vec<RenderAction> },
}

pub enum PostPlanView {
    Skip { warning: Seq<char> },
    Render { dir_name: Seq<char>, mtime: Timestamp, actions: Seq<RenderActionView> },
}

impl DeepView for PostPlan {
    type V = PostPlanView;

    open spec fn deep_view(&self) -> PostPlanView {
        match self {
            PostPlan::Skip { warning } => PostPlanView::Skip { warning: warning@ },
            PostPlan::Render { dir_name, mtime, actions } => PostPlanView::Render {
                dir_name: dir_name@,
                mtime: *mtime,
                actions: actions.deep_view(),
            },
        }
    }
}

/// The plan of one body shape. A body of unrecognized shape renders only
/// the common opening: nothing of its content is understood, so nothing of
/// it is emitted.
pub open spec fn spec_render_body(info: PostInfoView, b: PostBodyView) -> Seq<RenderActionView> {
    match b {
        PostBodyView::Image(ib) => spec_render_image(info, ib),
        PostBodyView::Article(ab) => spec_render_article(info, ab),
        PostBodyView::File(fb) => spec_render_file(info, fb),
        PostBodyView::Text { text } => spec_render_text(info, text),
        PostBodyView::Unknown => spec_prefix_wrapped(info),
    }
}

/// The decision taken for one fetched post.
pub open spec fn spec_plan_post(creator_id: Seq<char>, post: PostView) -> PostPlanView {
    match post.body {
        None => PostPlanView::Skip {
            warning: spec_permission_warning(creator_id, post.info.id),
        },
        Some(b) => PostPlanView::Render {
            dir_name: post.info.id,
            mtime: post.info.updated_datetime,
            actions: spec_render_body(post.info, b),
        },
    }
}

/// Decides what to do with one fetched post: skip it with the permission
/// warning when its body is withheld, otherwise render it. Every rendered
/// post carries the post's own last-updated time as the one modification
/// time for all its files.
pub fn plan_post(creator_id: &str, post: &Post) -> (r: PostPlan)
    ensures
        r.deep_view() == spec_plan_post(creator_id@, post.deep_view()),
        (post.body is None ==> r is Skip),
        (r matches PostPlan::Render { mtime, .. } ==> mtime == post.info.updated_datetime),
{
    match &post.body {
        None => PostPlan::Skip {
            warning: permission_warning(creator_id, post.info.id.as_str()),
        },
        Some(b) => {
            let actions = match b {
                PostBody::Image(ib) => render_image_post(&post.info, &ib.body),
                PostBody::Article(ab) => render_article_post(&post.info, &ab.body),
                PostBody::File(fb) => render_file_post(&post.info, &fb.body),
                PostBody::Text(tb) => render_text_post(&post.info, tb.body.text.as_str()),
                PostBody::Unknown => {
                    let mut acc: Vec<RenderAction> = Vec::new();
                    push_prefix_wrapped(&mut acc, &post.info);
                    proof {
                        assert(acc.deep_view() =~= spec_prefix_wrapped(post.info.deep_view()));
                    }
                    acc
                },
            };
            PostPlan::Render {
                dir_name: post.info.id.clone(),
                mtime: post.info.updated_datetime,
                actions,
            }
        },
    }
}

/// The document is the plan's `Line` fragments, one per line, in order.
pub open spec fn spec_collect_lines(actions: Seq<RenderActionView>) -> Seq<Seq<char>>
    decreases actions.len(),
{
    if actions.len() == 0 {
        Seq::empty()
    } else {
        spec_collect_lines(actions.drop_last()) + (match actions.last() {
            RenderActionView::Line(s) => seq![s],
            _ => Seq::<Seq<char>>::empty(),
        })
    }
}

/// Picks the document lines out of a plan's actions, in order.
pub fn collect_lines(actions: &Vec<RenderAction>) -> (r: Vec<String>)
    ensures
        r.deep_view() == spec_collect_lines(actions.deep_view()),
{
    let n = actions.len();
    let mut acc: Vec<String> = Vec::new();
    let mut i: usize = 0;
    proof {
        assert(actions.deep_view().take(0) =~= Seq::<RenderActionView>::empty());
        assert(acc.deep_view() =~= Seq::<Seq<char>>::empty());
    }
    while i < n
        invariant
            i <= n,
            n == actions.len(),
            acc.deep_view() == spec_collect_lines(actions.deep_view().take(i as int)),
        decreases n - i,
    {
        proof {
            assert(actions.deep_view().take(i as int + 1).drop_last() =~= actions.deep_view().take(
                i as int,
            ));
            assert(actions.deep_view().take(i as int + 1).last() == actions.deep_view()[i as int]);
            assert(actions.deep_view()[i as int] == actions@[i as int].deep_view());
        }
        let ghost pre = acc.deep_view();
        match &actions[i] {
            RenderAction::Line(s) => {
                push_dv(&mut acc, s.clone());
            },
            _ => {},
        }
        proof {
            assert(acc.deep_view() =~= spec_collect_lines(actions.deep_view().take(i as int + 1)));
        }
        i = i + 1;
    }
    proof {
        assert(actions.deep_view().take(n as int) =~= actions.deep_view());
    }
    acc
}

/// The document text: the lines joined by single newlines.
pub open spec fn spec_join_lines(lines: Seq<Seq<char>>) -> Seq<char>
    decreases lines.len(),
{
    if lines.len() == 0 {
        Seq::empty()
    } else if lines.len() == 1 {
        lines[0]
    } else {
        spec_join_lines(lines.drop_last()) + "\n"@ + lines.last()
    }
}

/// Joins the document lines with newlines, exactly as they are written to
/// the post's `index.html`.
pub fn join_lines(lines: &Vec<String>) -> (r: String)
    ensures
        r@ == spec_join_lines(lines.deep_view()),
{
    let n = lines.len();
    let mut s = String::new();
    let mut i: usize = 0;
    proof {
        assert(lines.deep_view().take(0) =~= Seq::<Seq<char>>::empty());
        assert(s@ =~= spec_join_lines(lines.deep_view().take(0)));
    }
    while i < n
        invariant
            i <= n,
            n == lines.len(),
            s@ == spec_join_lines(lines.deep_view().take(i as int)),
        decreases n - i,
    {
        proof {
            assert(lines.deep_view().take(i as int + 1).drop_last() =~= lines.deep_view().take(
                i as int,
            ));
            assert(lines.deep_view().take(i as int + 1).last() == lines.deep_view()[i as int]);
            assert(lines.deep_view()[i as int] == lines@[i as int]@);
        }
        if i > 0 {
            s.append("\n");
        }
        s.append(lines[i].as_str());
        proof {
            assert(s@ =~= spec_join_lines(lines.deep_view().take(i as int + 1)));
        }
        i = i + 1;
    }
    proof {
        assert(lines.deep_view().take(n as int) =~= lines.deep_view());
    }
    s
}

/// A post whose body is withheld is skipped: its plan is exactly one
/// warning — the permission warning naming the post's canonical URL — and
/// holds no action at all, so no directory and no file is produced for it,
/// and the walk goes on to the next post.
pub proof fn lemma_hidden_post_skipped(creator_id: Seq<char>, post: PostView)
    requires
        post.body is None,
    ensures
        spec_plan_post(creator_id, post) == (PostPlanView::Skip {
            warning: spec_permission_warning(creator_id, post.info.id),
        }),
{
}

/// Splicing of block sequences: rendering blocks one after another is the
/// concatenation of their renderings. One block's actions depend only on
/// that block and the maps, never on its neighbours.
pub proof fn lemma_article_blocks_concat(
    b: ArticleBodyView,
    s1: Seq<ArticleBlockView>,
    s2: Seq<ArticleBlockView>,
)
    ensures
        spec_article_blocks(b, s1 + s2) == spec_article_blocks(b, s1) + spec_article_blocks(
            b,
            s2,
        ),
    decreases s2.len(),
{
    if s2.len() == 0 {
        assert(s1 + s2 =~= s1);
        assert(spec_article_blocks(b, s1) + spec_article_blocks(b, s2) =~= spec_article_blocks(
            b,
            s1,
        ));
    } else {
        lemma_article_blocks_concat(b, s1, s2.drop_last());
        assert((s1 + s2).drop_last() =~= s1 + s2.drop_last());
        assert((s1 + s2).last() == s2.last());
        assert(spec_article_blocks(b, s1) + spec_article_blocks(b, s2) =~= spec_article_blocks(
            b,
            s1,
        ) + spec_article_blocks(b, s2.drop_last()) + spec_block_actions(b, s2.last()));
    }
}

/// An article's rendering, split at any one block: the opening, the blocks
/// before it, its own actions, the blocks after it.
pub proof fn lemma_article_block_at(info: PostInfoView, b: ArticleBodyView, i: int)
    requires
        0 <= i < b.blocks.len(),
    ensures
        spec_render_article(info, b) == spec_prefix_article(info) + spec_article_blocks(
            b,
            b.blocks.take(i),
        ) + spec_block_actions(b, b.blocks[i]) + spec_article_blocks(b, b.blocks.skip(i + 1)),
{
    let mid = seq![b.blocks[i]];
    assert(b.blocks =~= b.blocks.take(i) + mid + b.blocks.skip(i + 1));
    lemma_article_blocks_concat(b, b.blocks.take(i) + mid, b.blocks.skip(i + 1));
    lemma_article_blocks_concat(b, b.blocks.take(i), mid);
    assert(mid.drop_last() =~= Seq::<ArticleBlockView>::empty());
    assert(mid.last() == b.blocks[i]);
    assert(spec_article_blocks(b, Seq::<ArticleBlockView>::empty())
        =~= Seq::<RenderActionView>::empty());
    assert(spec_article_blocks(b, mid) == spec_article_blocks(b, mid.drop_last())
        + spec_block_actions(b, mid.last()));
    assert(spec_article_blocks(b, mid) =~= spec_block_actions(b, b.blocks[i]));
    assert(spec_prefix_article(info) + spec_article_blocks(b, b.blocks.take(i) + mid)
        + spec_article_blocks(b, b.blocks.skip(i + 1)) =~= spec_prefix_article(info)
        + spec_article_blocks(b, b.blocks.take(i)) + spec_block_actions(b, b.blocks[i])
        + spec_article_blocks(b, b.blocks.skip(i + 1)));
}

/// A block whose referenced id is absent from its map contributes no
/// download, no fragment, and no wrapper: its whole contribution is the
/// one warning that names the dangling id. The blocks before and after it
/// render exactly as they would anyway.
pub proof fn lemma_dangling_reference(info: PostInfoView, b: ArticleBodyView, i: int)
    requires
        0 <= i < b.blocks.len(),
        spec_block_dangling(b, b.blocks[i]),
    ensures
        spec_block_actions(b, b.blocks[i]) == seq![
            RenderActionView::Warning(spec_dangling_warning(b.blocks[i])),
        ],
        spec_render_article(info, b) == spec_prefix_article(info) + spec_article_blocks(
            b,
            b.blocks.take(i),
        ) + seq![RenderActionView::Warning(spec_dangling_warning(b.blocks[i]))]
            + spec_article_blocks(b, b.blocks.skip(i + 1)),
{
    lemma_article_block_at(info, b, i);
}

/// For an article of exactly a header, an image reference found in the
/// map, and a paragraph, the rendered actions are, in order: the opening,
/// the wrapped header, the image's download immediately followed by its
/// fragment inside one wrapper, then the wrapped paragraph. The download
/// comes before the trailing paragraph's fragment, and nothing is
/// reordered.
pub proof fn lemma_header_image_paragraph_order(
    info: PostInfoView,
    b: ArticleBodyView,
    h: Seq<char>,
    image_id: Seq<char>,
    t: Seq<char>,
    img: ImageView,
)
    requires
        b.blocks == seq![
            ArticleBlockView::Header { text: h },
            ArticleBlockView::Image { image_id },
            ArticleBlockView::P { text: t },
        ],
        spec_assoc_get(b.image_map, image_id) == Some(img),
    ensures
        spec_render_article(info, b) == spec_prefix_article(info) + seq![
            RenderActionView::Line("<p>"@),
            RenderActionView::Line(spec_header_line(h)),
            RenderActionView::Line("</p>"@),
            RenderActionView::Line("<p>"@),
            RenderActionView::Download {
                url: img.original_url,
                file_name: spec_asset_name(img.id, img.extension),
            },
            RenderActionView::Line(spec_image_fragment(img.original_url, img.id, img.extension)),
            RenderActionView::Line("</p>"@),
            RenderActionView::Line("<p>"@),
            RenderActionView::Line(t),
            RenderActionView::Line("</p>"@),
        ],
{
    let s3 = b.blocks;
    let s2 = s3.drop_last();
    let s1 = s2.drop_last();
    let s0 = s1.drop_last();
    assert(s2 =~= seq![
        ArticleBlockView::Header { text: h },
        ArticleBlockView::Image { image_id },
    ]);
    assert(s1 =~= seq![ArticleBlockView::Header { text: h }]);
    assert(s0 =~= Seq::<ArticleBlockView>::empty());
    assert(spec_article_blocks(b, s0) =~= Seq::<RenderActionView>::empty());
    assert(s1.last() == ArticleBlockView::Header { text: h });
    assert(s2.last() == ArticleBlockView::Image { image_id });
    assert(s3.last() == ArticleBlockView::P { text: t });
    assert(spec_article_blocks(b, s1) == spec_article_blocks(b, s0) + spec_block_actions(
        b,
        s1.last(),
    ));
    assert(spec_article_blocks(b, s2) == spec_article_blocks(b, s1) + spec_block_actions(
        b,
        s2.last(),
    ));
    assert(spec_article_blocks(b, s3) == spec_article_blocks(b, s2) + spec_block_actions(
        b,
        s3.last(),
    ));
    assert(spec_render_article(info, b) =~= spec_prefix_article(info) + seq![
        RenderActionView::Line("<p>"@),
        RenderActionView::Line(spec_header_line(h)),
        RenderActionView::Line("</p>"@),
        RenderActionView::Line("<p>"@),
        RenderActionView::Download {
            url: img.original_url,
            file_name: spec_asset_name(img.id, img.extension),
        },
        RenderActionView::Line(spec_image_fragment(img.original_url, img.id, img.extension)),
        RenderActionView::Line("</p>"@),
        RenderActionView::Line("<p>"@),
        RenderActionView::Line(t),
        RenderActionView::Line("</p>"@),
    ]);
}

} // verus!
