//! Content of the web pages: the home page, markdown pages with their
//! image galleries, titles, file paths and the answer for unknown routes.
use vstd::prelude::*;

use crate::text::{lemma_replace_absent, lemma_replace_char, occurs_in, replace_all, replaced};

verus! {

broadcast use vstd::string::group_string_axioms;

/// What `markdown::to_html_with_options` returns for `source` with the
/// crate's default parse options (no MDX) and a compile configuration
/// that, when `dangerous` holds, lets raw HTML and every link protocol
/// through.
pub uninterp spec fn markdown_html(source: Seq<char>, dangerous: bool) -> Seq<char>;

/// Renders markdown to HTML.
///
/// Trusted: calls `markdown::to_html_with_options` with
/// `Options::default()`, except that `allow_dangerous_html` and
/// `allow_dangerous_protocol` are set to `dangerous`. The contract claims
/// that the result depends on the source and that flag alone. The crate
/// documents that this function never errors unless MDX is switched on,
/// which these options leave off, so the `expect` does not fire.
#[verifier::external_body]
fn to_html_with_options(source: &str, dangerous: bool) -> (html: String)
    ensures
        html@ == markdown_html(source@, dangerous),
{
    let options = markdown::Options {
        compile: markdown::CompileOptions {
            allow_dangerous_html: dangerous,
            allow_dangerous_protocol: dangerous,
            ..markdown::CompileOptions::default()
        },
        ..markdown::Options::default()
    };
    markdown::to_html_with_options(source, &options).expect("markdown without MDX cannot fail")
}

/// Renders markdown with the default, safe options (raw HTML escaped,
/// dangerous link protocols dropped), as `markdown::to_html` does.
pub fn render_markdown(source: &str) -> (html: String)
    ensures
        html@ == markdown_html(source@, false),
{
    to_html_with_options(source, false)
}

/// The result of `str::to_lowercase` on `s`: the Unicode lowercase mapping
/// of every character.
pub uninterp spec fn lowercase(s: Seq<char>) -> Seq<char>;

/// Trusted: calls `str::to_lowercase` (std), whose result depends on the
/// string alone.
#[verifier::external_body]
fn to_lowercase(s: &str) -> (r: String)
    ensures
        r@ == lowercase(s@),
{
    s.to_lowercase()
}

/// The home page: it only knows its own name, which the template uses to
/// mark the active menu entry.
pub struct HomePage {
    pub page: String,
}

/// Builds the home page.
pub fn page_home() -> (p: HomePage)
    ensures
        p.page@ == "home"@,
{
    HomePage { page: String::from_str("home") }
}

/// A rendered markdown page: the page's name and its body as HTML.
pub struct MarkdownPage {
    pub page: String,
    pub md_content: String,
}

/// The image folders whose placeholders a markdown page may hold, in the
/// order in which they are expanded.
pub open spec fn image_folders() -> Seq<Seq<char>> {
    seq!["flora"@, "fauna"@, "funga"@, "gestein"@]
}

/// The web path of the images of `folder`.
pub open spec fn folder_path(folder: Seq<char>) -> Seq<char> {
    "/static/img/naturarchiv/"@ + folder + "/"@
}

/// The placeholder that stands for the images of `folder`.
pub open spec fn placeholder(folder: Seq<char>) -> Seq<char> {
    "{{"@ + folder + "}}"@
}

/// One `<img>` tag per file name, in order, each pointing into `path`.
pub open spec fn image_tags(path: Seq<char>, files: Seq<Seq<char>>) -> Seq<char>
    decreases files.len(),
{
    if files.len() == 0 {
        Seq::empty()
    } else {
        image_tags(path, files.drop_last()) + "<img src='"@ + path + files.last() + "'>"@
    }
}

/// `content` after the placeholders of the first `k` image folders have
/// been replaced, in order, by the tags for their files (`listings[i]`
/// holds the file names of folder `i`).
pub open spec fn expand_images(content: Seq<char>, listings: Seq<Seq<Seq<char>>>, k: nat) -> Seq<
    char,
>
    decreases k,
{
    if k == 0 {
        content
    } else {
        let i = k - 1;
        replaced(
            expand_images(content, listings, (k - 1) as nat),
            placeholder(image_folders()[i]),
            image_tags(folder_path(image_folders()[i]), listings[i]),
        )
    }
}

/// The file names of each folder's listing, as character sequences.
pub open spec fn listing_views(listings: Seq<Vec<String>>) -> Seq<Seq<Seq<char>>> {
    listings.map_values(|l: Vec<String>| l@.map_values(|f: String| f@))
}

/// The name of image folder `k`, in the order in which placeholders are
/// expanded.
pub fn image_folder(k: usize) -> (name: &'static str)
    requires
        k < 4,
    ensures
        name@ == image_folders()[k as int],
{
    if k == 0 {
        "flora"
    } else if k == 1 {
        "fauna"
    } else if k == 2 {
        "funga"
    } else {
        "gestein"
    }
}

/// The web path of the images in `folder`, e.g. `/static/img/naturarchiv/flora/`.
pub fn image_folder_path(folder: &str) -> (path: String)
    ensures
        path@ == folder_path(folder@),
{
    let mut path = String::from_str("/static/img/naturarchiv/");
    path.append(folder);
    path.append("/");
    path
}

/// The placeholder for the images of `folder`, e.g. `{{flora}}`.
pub fn image_placeholder(folder: &str) -> (p: String)
    ensures
        p@ == placeholder(folder@),
{
    let mut p = String::from_str("{{");
    p.append(folder);
    p.append("}}");
    p
}

/// The `<img>` tags for the files `files` found under the web path `path`.
pub fn image_gallery(path: &str, files: &Vec<String>) -> (tags: String)
    ensures
        tags@ == image_tags(path@, files@.map_values(|f: String| f@)),
{
    let ghost names = files@.map_values(|f: String| f@);
    let mut tags = String::new();
    let mut i: usize = 0;
    while i < files.len()
        invariant
            i <= files.len(),
            names == files@.map_values(|f: String| f@),
            tags@ == image_tags(path@, names.take(i as int)),
        decreases files.len() - i,
    {
        tags.append("<img src='");
        tags.append(path);
        tags.append(files[i].as_str());
        tags.append("'>");
        assert(names.take(i + 1).drop_last() =~= names.take(i as int));
        i = i + 1;
    }
    assert(names.take(files.len() as int) =~= names);
    tags
}

/// Replaces the image placeholders `{{flora}}`, `{{fauna}}`, `{{funga}}`
/// and `{{gestein}}` of a markdown source, in that order, by image tags
/// for the files listed for that folder (`listings[i]` for folder `i`).
pub fn expand_image_placeholders(source: &str, listings: &Vec<Vec<String>>) -> (expanded: String)
    requires
        listings.len() == 4,
    ensures
        expanded@ == expand_images(source@, listing_views(listings@), 4),
{
    let ghost views = listing_views(listings@);
    let mut content = String::from_str(source);
    let mut k: usize = 0;
    while k < 4
        invariant
            k <= 4,
            listings.len() == 4,
            views == listing_views(listings@),
            content@ == expand_images(source@, views, k as nat),
        decreases 4 - k,
    {
        let folder = image_folder(k);
        let path = image_folder_path(folder);
        let tags = image_gallery(path.as_str(), &listings[k]);
        let holder = image_placeholder(folder);
        content = replace_all(content.as_str(), holder.as_str(), tags.as_str());
        k = k + 1;
    }
    content
}

/// Builds the markdown page `md_file` from its source text and the file
/// listings of the image folders: the image placeholders are expanded and
/// the result is rendered with raw HTML allowed, since the pages are the
/// site's own.
pub fn build_markdown_page(md_file: &str, source: &str, listings: &Vec<Vec<String>>) -> (page:
    MarkdownPage)
    requires
        listings.len() == 4,
    ensures
        page.page@ == md_file@,
        page.md_content@ == markdown_html(
            expand_images(source@, listing_views(listings@), 4),
            true,
        ),
{
    let expanded = expand_image_placeholders(source, listings);
    let html = to_html_with_options(expanded.as_str(), true);
    MarkdownPage { page: String::from_str(md_file), md_content: html }
}

/// The title shown for a markdown page: its name with underscores turned
/// into spaces.
pub fn page_title(md_file: &str) -> (title: String)
    ensures
        title@ == replaced(md_file@, "_"@, " "@),
{
    replace_all(md_file, "_", " ")
}

/// Where the markdown source of page `md_file` lies: `md/`, the name in
/// lower case, and `.md`.
pub fn md_file_path(md_file: &str) -> (path: String)
    ensures
        path@ == "md/"@ + lowercase(md_file@) + ".md"@,
{
    let lower = to_lowercase(md_file);
    let mut path = String::from_str("md/");
    path.append(lower.as_str());
    path.append(".md");
    path
}

/// The text answered when a markdown page has no source file.
pub fn page_not_found_text() -> (text: &'static str)
    ensures
        text@ == "Page not found, even though status code is 200..."@,
{
    "Page not found, even though status code is 200..."
}

/// The answer to a request that no route takes: status 404 and a short
/// message.
pub fn fallback() -> (answer: (u16, &'static str))
    ensures
        answer.0 == 404,
        answer.1@ == "Eeeeee?! (Error 404)"@,
{
    (404, "Eeeeee?! (Error 404)")
}

/// A page source that holds none of the image placeholders is rendered
/// from the source as it is, whatever the folders hold.
pub proof fn lemma_no_placeholders(source: Seq<char>, listings: Seq<Seq<Seq<char>>>, k: nat)
    requires
        k <= 4,
        forall|i: int| 0 <= i < 4 ==> !occurs_in(source, #[trigger] placeholder(image_folders()[i])),
    ensures
        expand_images(source, listings, k) == source,
    decreases k,
{
    if k > 0 {
        lemma_no_placeholders(source, listings, (k - 1) as nat);
        let i = k - 1;
        reveal_strlit("{{");
        assert(placeholder(image_folders()[i]).len() > 0);
        lemma_replace_absent(
            source,
            placeholder(image_folders()[i]),
            image_tags(folder_path(image_folders()[i]), listings[i]),
        );
    }
}

/// A page's title is as long as its name, with a space wherever the name
/// has an underscore and the name's character everywhere else.
pub proof fn lemma_page_title(md_file: Seq<char>)
    ensures
        replaced(md_file, "_"@, " "@).len() == md_file.len(),
        forall|i: int|
            0 <= i < md_file.len() ==> #[trigger] replaced(md_file, "_"@, " "@)[i] == if md_file[i]
                == '_' {
                ' '
            } else {
                md_file[i]
            },
{
    reveal_strlit("_");
    reveal_strlit(" ");
    assert("_"@ =~= seq!['_']);
    assert(" "@ =~= seq![' ']);
    lemma_replace_char(md_file, '_', ' ');
}

/// The markup around an image gallery: a folder's placeholder is its name
/// between double braces, its web path lies under
/// `/static/img/naturarchiv/` and ends in a slash, and each image is one
/// `<img>` tag whose single-quoted source is the path followed by the file
/// name.
pub proof fn lemma_gallery_markup(folder: Seq<char>, path: Seq<char>, files: Seq<Seq<char>>)
    ensures
        placeholder(folder) == seq!['{', '{'] + folder + seq!['}', '}'],
        folder_path(folder) == seq![
            '/', 's', 't', 'a', 't', 'i', 'c', '/', 'i', 'm', 'g', '/', 'n', 'a', 't', 'u', 'r',
            'a', 'r', 'c', 'h', 'i', 'v', '/',
        ] + folder + seq!['/'],
        files.len() > 0 ==> image_tags(path, files) == image_tags(path, files.drop_last())
            + seq!['<', 'i', 'm', 'g', ' ', 's', 'r', 'c', '=', '\''] + path + files.last()
            + seq!['\'', '>'],
        image_tags(path, Seq::empty()) == Seq::<char>::empty(),
{
    reveal_strlit("{{");
    reveal_strlit("}}");
    reveal_strlit("/static/img/naturarchiv/");
    reveal_strlit("/");
    reveal_strlit("<img src='");
    reveal_strlit("'>");
    assert(placeholder(folder) =~= seq!['{', '{'] + folder + seq!['}', '}']);
    assert(folder_path(folder) =~= seq![
        '/', 's', 't', 'a', 't', 'i', 'c', '/', 'i', 'm', 'g', '/', 'n', 'a', 't', 'u', 'r', 'a',
        'r', 'c', 'h', 'i', 'v', '/',
    ] + folder + seq!['/']);
    if files.len() > 0 {
        assert(image_tags(path, files) =~= image_tags(path, files.drop_last()) + seq![
            '<', 'i', 'm', 'g', ' ', 's', 'r', 'c', '=', '\'',
        ] + path + files.last() + seq!['\'', '>']);
    }
}

/// The image folders are flora, fauna, funga and gestein, in that order.
pub proof fn lemma_image_folder_names()
    ensures
        image_folders() == seq![
            seq!['f', 'l', 'o', 'r', 'a'],
            seq!['f', 'a', 'u', 'n', 'a'],
            seq!['f', 'u', 'n', 'g', 'a'],
            seq!['g', 'e', 's', 't', 'e', 'i', 'n'],
        ],
{
    reveal_strlit("flora");
    reveal_strlit("fauna");
    reveal_strlit("funga");
    reveal_strlit("gestein");
    assert("flora"@ =~= seq!['f', 'l', 'o', 'r', 'a']);
    assert("fauna"@ =~= seq!['f', 'a', 'u', 'n', 'a']);
    assert("funga"@ =~= seq!['f', 'u', 'n', 'g', 'a']);
    assert("gestein"@ =~= seq!['g', 'e', 's', 't', 'e', 'i', 'n']);
    assert(image_folders() =~= seq![
        seq!['f', 'l', 'o', 'r', 'a'],
        seq!['f', 'a', 'u', 'n', 'a'],
        seq!['f', 'u', 'n', 'g', 'a'],
        seq!['g', 'e', 's', 't', 'e', 'i', 'n'],
    ]);
}

} // verus!
