use vstd::prelude::*;

verus! {

/// A point in time as seconds since the POSIX epoch plus a sub-second
/// component in nanoseconds. Every file written for a post is stamped with
/// the post's last-updated time at this precision.
#[derive(Debug, Clone, Copy, PartialEq, Eq, Structural)]
pub struct Timestamp {
    pub secs: i64,
    pub nanos: u32,
}

/// One entry of a creator's paged listing: the identifier of a post.
#[derive(Debug, PartialEq)]
pub struct ListCreatorItem {
    pub id: String,
}

pub struct ListCreatorItemView {
    pub id: Seq<char>,
}

impl DeepView for ListCreatorItem {
    type V = ListCreatorItemView;

    open spec fn deep_view(&self) -> ListCreatorItemView {
        ListCreatorItemView { id: self.id@ }
    }
}

impl Clone for ListCreatorItem {
    fn clone(&self) -> (r: Self)
        ensures
            r.deep_view() == self.deep_view(),
    {
        ListCreatorItem { id: self.id.clone() }
    }
}

/// An image asset: addressed directly by image posts, or through the
/// article image map.
#[derive(Debug, PartialEq)]
pub struct Image {
    pub id: String,
    pub extension: String,
    pub original_url: String,
}

pub struct ImageView {
    pub id: Seq<char>,
    pub extension: Seq<char>,
    pub original_url: Seq<char>,
}

impl DeepView for Image {
    type V = ImageView;

    open spec fn deep_view(&self) -> ImageView {
        ImageView { id: self.id@, extension: self.extension@, original_url: self.original_url@ }
    }
}

/// A file asset with a display name.
#[derive(Debug, PartialEq)]
pub struct File {
    pub id: String,
    pub extension: String,
    pub name: String,
    pub url: String,
}

pub struct FileView {
    pub id: Seq<char>,
    pub extension: Seq<char>,
    pub name: Seq<char>,
    pub url: Seq<char>,
}

impl DeepView for File {
    type V = FileView;

    open spec fn deep_view(&self) -> FileView {
        FileView { id: self.id@, extension: self.extension@, name: self.name@, url: self.url@ }
    }
}

#[derive(Debug, PartialEq)]
pub struct ArticleBlockP {
    pub text: String,
}

#[derive(Debug, PartialEq)]
pub struct ArticleBlockHeader {
    pub text: String,
}

#[derive(Debug, PartialEq)]
pub struct ArticleBlockImage {
    pub image_id: String,
}

#[derive(Debug, PartialEq)]
pub struct ArticleBlockFile {
    pub file_id: String,
}

#[derive(Debug, PartialEq)]
pub struct ArticleBlockEmbed {
    pub embed_id: String,
}

#[derive(Debug, PartialEq)]
pub struct ArticleBlockUrlEmbed {
    pub url_embed_id: String,
}

/// One ordered content unit of an article body: a paragraph, a header, or
/// a reference into one of the four asset maps. The block sequence is the
/// document's paragraph order. An unrecognized block kind lands on
/// `Unknown` instead of failing the whole post.
#[derive(Debug, PartialEq)]
pub enum ArticleBlock {
    P(ArticleBlockP),
    Header(ArticleBlockHeader),
    Image(ArticleBlockImage),
    File(ArticleBlockFile),
    Embed(ArticleBlockEmbed),
    UrlEmbed(ArticleBlockUrlEmbed),
    Unknown,
}

pub enum ArticleBlockView {
    P { text: Seq<char> },
    Header { text: Seq<char> },
    Image { image_id: Seq<char> },
    File { file_id: Seq<char> },
    Embed { embed_id: Seq<char> },
    UrlEmbed { url_embed_id: Seq<char> },
    Unknown,
}

impl DeepView for ArticleBlock {
    type V = ArticleBlockView;

    open spec fn deep_view(&self) -> ArticleBlockView {
        match self {
            ArticleBlock::P(b) => ArticleBlockView::P { text: b.text@ },
            ArticleBlock::Header(b) => ArticleBlockView::Header { text: b.text@ },
            ArticleBlock::Image(b) => ArticleBlockView::Image { image_id: b.image_id@ },
            ArticleBlock::File(b) => ArticleBlockView::File { file_id: b.file_id@ },
            ArticleBlock::Embed(b) => ArticleBlockView::Embed { embed_id: b.embed_id@ },
            ArticleBlock::UrlEmbed(b) => ArticleBlockView::UrlEmbed {
                url_embed_id: b.url_embed_id@,
            },
            ArticleBlock::Unknown => ArticleBlockView::Unknown,
        }
    }
}

#[derive(Debug, PartialEq)]
pub struct EmbedTwitter {
    pub content_id: String,
}

#[derive(Debug, PartialEq)]
pub struct EmbedFanbox {
    pub content_id: String,
}

#[derive(Debug, PartialEq)]
pub struct EmbedYoutube {
    pub content_id: String,
}

/// A provider-keyed embed. Present for completeness of the schema: the
/// rendering path never dereferences it, so an embed block contributes
/// nothing to the document.
#[derive(Debug, PartialEq)]
pub enum Embed {
    Twitter(EmbedTwitter),
    Fanbox(EmbedFanbox),
    Youtube(EmbedYoutube),
    Unknown,
}

pub enum EmbedView {
    Twitter { content_id: Seq<char> },
    Fanbox { content_id: Seq<char> },
    Youtube { content_id: Seq<char> },
    Unknown,
}

impl DeepView for Embed {
    type V = EmbedView;

    open spec fn deep_view(&self) -> EmbedView {
        match self {
            Embed::Twitter(e) => EmbedView::Twitter { content_id: e.content_id@ },
            Embed::Fanbox(e) => EmbedView::Fanbox { content_id: e.content_id@ },
            Embed::Youtube(e) => EmbedView::Youtube { content_id: e.content_id@ },
            Embed::Unknown => EmbedView::Unknown,
        }
    }
}

#[derive(Debug, PartialEq)]
pub struct UrlEmbedDefault {
    pub url: String,
}

#[derive(Debug, PartialEq)]
pub struct UrlEmbedHtml {
    pub html: String,
}

/// A URL embed: either a plain link or markup already inlined in the
/// response. `HtmlCard` renders identically to `Html`. No network fetch
/// ever happens for these.
#[derive(Debug, PartialEq)]
pub enum UrlEmbed {
    Default(UrlEmbedDefault),
    Html(UrlEmbedHtml),
    HtmlCard(UrlEmbedHtml),
    Unknown,
}

pub enum UrlEmbedView {
    Default { url: Seq<char> },
    Html { html: Seq<char> },
    HtmlCard { html: Seq<char> },
    Unknown,
}

impl DeepView for UrlEmbed {
    type V = UrlEmbedView;

    open spec fn deep_view(&self) -> UrlEmbedView {
        match self {
            UrlEmbed::Default(e) => UrlEmbedView::Default { url: e.url@ },
            UrlEmbed::Html(e) => UrlEmbedView::Html { html: e.html@ },
            UrlEmbed::HtmlCard(e) => UrlEmbedView::HtmlCard { html: e.html@ },
            UrlEmbed::Unknown => UrlEmbedView::Unknown,
        }
    }
}

/// Body of an image post: a trailing text plus an ordered list of images.
#[derive(Debug, PartialEq)]
pub struct PostBodyImageBody {
    pub text: String,
    pub images: Vec<Image>,
}

pub struct ImageBodyView {
    pub text: Seq<char>,
    pub images: Seq<ImageView>,
}

impl DeepView for PostBodyImageBody {
    type V = ImageBodyView;

    open spec fn deep_view(&self) -> ImageBodyView {
        ImageBodyView { text: self.text@, images: self.images.deep_view() }
    }
}

#[derive(Debug, PartialEq)]
pub struct PostBodyImage {
    pub body: PostBodyImageBody,
}

/// Body of an article post: the ordered block sequence plus the four
/// cross-reference maps from opaque id to asset. The maps are lookup-only;
/// only the block order is load-bearing.
#[derive(Debug, PartialEq)]
pub struct PostBodyArticleBody {
    pub blocks: Vec<ArticleBlock>,
    pub image_map: Vec<(String, Image)>,
    pub file_map: Vec<(String, File)>,
    pub embed_map: Vec<(String, Embed)>,
    pub url_embed_map: Vec<(String, UrlEmbed)>,
}

pub struct ArticleBodyView {
    pub blocks: Seq<ArticleBlockView>,
    pub image_map: Seq<(Seq<char>, ImageView)>,
    pub file_map: Seq<(Seq<char>, FileView)>,
    pub embed_map: Seq<(Seq<char>, EmbedView)>,
    pub url_embed_map: Seq<(Seq<char>, UrlEmbedView)>,
}

impl DeepView for PostBodyArticleBody {
    type V = ArticleBodyView;

    open spec fn deep_view(&self) -> ArticleBodyView {
        ArticleBodyView {
            blocks: self.blocks.deep_view(),
            image_map: self.image_map.deep_view(),
            file_map: self.file_map.deep_view(),
            embed_map: self.embed_map.deep_view(),
            url_embed_map: self.url_embed_map.deep_view(),
        }
    }
}

#[derive(Debug, PartialEq)]
pub struct PostBodyArticle {
    pub body: PostBodyArticleBody,
}

/// Body of a file post: a trailing text plus an ordered list of files.
#[derive(Debug, PartialEq)]
pub struct PostBodyFileBody {
    pub text: String,
    pub files: Vec<File>,
}

pub struct FileBodyView {
    pub text: Seq<char>,
    pub files: Seq<FileView>,
}

impl DeepView for PostBodyFileBody {
    type V = FileBodyView;

    open spec fn deep_view(&self) -> FileBodyView {
        FileBodyView { text: self.text@, files: self.files.deep_view() }
    }
}

#[derive(Debug, PartialEq)]
pub struct PostBodyFile {
    pub body: PostBodyFileBody,
}

/// Body of a text post: only the text itself.
#[derive(Debug, PartialEq)]
pub struct PostBodyTextBody {
    pub text: String,
}

impl DeepView for PostBodyTextBody {
    type V = Seq<char>;

    open spec fn deep_view(&self) -> Seq<char> {
        self.text@
    }
}

#[derive(Debug, PartialEq)]
pub struct PostBodyText {
    pub body: PostBodyTextBody,
}

/// The tagged union of body shapes. The remote schema may grow new tags at
/// any time, so every unrecognized tag must land on `Unknown` rather than
/// failing the enclosing post.
#[derive(Debug, PartialEq)]
pub enum PostBody {
    Image(PostBodyImage),
    Article(PostBodyArticle),
    File(PostBodyFile),
    Text(PostBodyText),
    Unknown,
}

pub enum PostBodyView {
    Image(ImageBodyView),
    Article(ArticleBodyView),
    File(FileBodyView),
    Text { text: Seq<char> },
    Unknown,
}

impl DeepView for PostBody {
    type V = PostBodyView;

    open spec fn deep_view(&self) -> PostBodyView {
        match self {
            PostBody::Image(b) => PostBodyView::Image(b.body.deep_view()),
            PostBody::Article(b) => PostBodyView::Article(b.body.deep_view()),
            PostBody::File(b) => PostBodyView::File(b.body.deep_view()),
            PostBody::Text(b) => PostBodyView::Text { text: b.body.text@ },
            PostBody::Unknown => PostBodyView::Unknown,
        }
    }
}

/// The metadata of a post, common to every body shape.
#[derive(Debug, PartialEq)]
pub struct PostInfo {
    pub id: String,
    pub title: String,
    pub cover_image_url: Option<String>,
    pub updated_datetime: Timestamp,
    pub creator_id: String,
}

pub struct PostInfoView {
    pub id: Seq<char>,
    pub title: Seq<char>,
    pub cover_image_url: Option<Seq<char>>,
    pub updated_datetime: Timestamp,
    pub creator_id: Seq<char>,
}

impl DeepView for PostInfo {
    type V = PostInfoView;

    open spec fn deep_view(&self) -> PostInfoView {
        PostInfoView {
            id: self.id@,
            title: self.title@,
            cover_image_url: self.cover_image_url.deep_view(),
            updated_datetime: self.updated_datetime,
            creator_id: self.creator_id@,
        }
    }
}

/// One post: its metadata plus an optional body. `body` is `None` when the
/// caller lacks permission to view the post; that is a legitimate terminal
/// state for the post, not a failure.
#[derive(Debug, PartialEq)]
pub struct Post {
    pub info: PostInfo,
    pub body: Option<PostBody>,
}

pub struct PostView {
    pub info: PostInfoView,
    pub body: Option<PostBodyView>,
}

impl DeepView for Post {
    type V = PostView;

    open spec fn deep_view(&self) -> PostView {
        PostView { info: self.info.deep_view(), body: self.body.deep_view() }
    }
}

} // verus!
