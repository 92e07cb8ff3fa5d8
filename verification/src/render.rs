//! Image composition and rendering: assembles the five visual elements of a
//! 1200x630 social card (background, title block, author line, url line,
//! avatar) into one vector document, and rasterizes it to PNG on demand.

use vstd::prelude::*;

use crate::ident::safe_id;
use crate::ident::valid_id;
use crate::layout::ellipsize;
use crate::layout::line_views;
use crate::layout::wrap_capped;
use crate::layout::wrap_lines;
use crate::palette::palette_spec;
use crate::palette::resolve;
use crate::palette::OGTheme;
use crate::palette::Palette;
use crate::raster::parse_svg;
use crate::raster::png_sized;
use crate::raster::raster_tree_png;
use crate::raster::tree_int_size;
use crate::utils::push_char;
use crate::utils::str_or_val;
use crate::utils::str_or_val_spec;
use crate::utils::trim_spec;

verus! {

/// The input record for one image: all fields pre-trimmed and defaulted by
/// the caller.
pub struct OGImage {
    pub title: String,
    pub photo: String,
    pub author: String,
    pub url: String,
    pub theme: OGTheme,
}

/// Mathematical model of an [`OGImage`]: the field texts as char sequences.
pub struct OGImageModel {
    pub title: Seq<char>,
    pub photo: Seq<char>,
    pub author: Seq<char>,
    pub url: Seq<char>,
    pub theme: OGTheme,
}

impl View for OGImage {
    type V = OGImageModel;

    open spec fn view(&self) -> OGImageModel {
        OGImageModel {
            title: self.title@,
            photo: self.photo@,
            author: self.author@,
            url: self.url@,
            theme: self.theme,
        }
    }
}

/// The expansion of one character under XML text escaping: `&`, `<`, `>` and
/// `"` become entities, everything else stands as itself.
pub open spec fn escape_char(c: char) -> Seq<char> {
    if c == '&' {
        seq!['&', 'a', 'm', 'p', ';']
    } else if c == '<' {
        seq!['&', 'l', 't', ';']
    } else if c == '>' {
        seq!['&', 'g', 't', ';']
    } else if c == '"' {
        seq!['&', 'q', 'u', 'o', 't', ';']
    } else {
        seq![c]
    }
}

/// XML escaping of a whole sequence.
pub open spec fn escape_seq(s: Seq<char>) -> Seq<char>
    decreases s.len(),
{
    if s.len() == 0 {
        Seq::empty()
    } else {
        escape_seq(s.drop_last()) + escape_char(s.last())
    }
}

proof fn lemma_escape_take_step(s: Seq<char>, i: int)
    requires
        0 <= i < s.len(),
    ensures
        escape_seq(s.take(i + 1)) == escape_seq(s.take(i)) + escape_char(s[i]),
{
    assert(s.take(i + 1).drop_last() =~= s.take(i));
    assert(s.take(i + 1).last() == s[i]);
}

/// Escapes `text` for use in XML text content or an attribute value.
pub fn escape_xml(text: &str) -> (r: String)
    ensures
        r@ == escape_seq(text@),
{
    let n = text.unicode_len();
    let mut out = String::new();
    let mut i: usize = 0;
    while i < n
        invariant
            n == text@.len(),
            i <= n,
            out@ == escape_seq(text@.take(i as int)),
        decreases n - i,
    {
        let c = text.get_char(i);
        proof {
            lemma_escape_take_step(text@, i as int);
        }
        if c == '&' {
            out.append("&amp;");
            proof {
                reveal_strlit("&amp;");
                assert("&amp;"@ =~= escape_char('&'));
            }
        } else if c == '<' {
            out.append("&lt;");
            proof {
                reveal_strlit("&lt;");
                assert("&lt;"@ =~= escape_char('<'));
            }
        } else if c == '>' {
            out.append("&gt;");
            proof {
                reveal_strlit("&gt;");
                assert("&gt;"@ =~= escape_char('>'));
            }
        } else if c == '"' {
            out.append("&quot;");
            proof {
                reveal_strlit("&quot;");
                assert("&quot;"@ =~= escape_char('"'));
            }
        } else {
            push_char(&mut out, c);
            proof {
                assert(out@ =~= escape_seq(text@.take(i as int)) + escape_char(c));
            }
        }
        i = i + 1;
    }
    proof {
        assert(text@.take(n as int) =~= text@);
    }
    out
}

/// One title line as a `tspan` element.
pub open spec fn tspan_item(line: Seq<char>) -> Seq<char> {
    "<tspan x=\"103\" dy=\"90\">"@ + escape_seq(line) + "</tspan>"@
}

/// All title lines as consecutive `tspan` elements.
pub open spec fn tspans_spec(lines: Seq<Seq<char>>) -> Seq<char>
    decreases lines.len(),
{
    if lines.len() == 0 {
        Seq::empty()
    } else {
        tspans_spec(lines.drop_last()) + tspan_item(lines.last())
    }
}

proof fn lemma_tspans_take_step(lines: Seq<Seq<char>>, i: int)
    requires
        0 <= i < lines.len(),
    ensures
        tspans_spec(lines.take(i + 1)) == tspans_spec(lines.take(i)) + tspan_item(lines[i]),
{
    assert(lines.take(i + 1).drop_last() =~~= lines.take(i));
    assert(lines.take(i + 1).last() == lines[i]);
}

fn title_spans(lines: &Vec<String>) -> (r: String)
    ensures
        r@ == tspans_spec(line_views(lines@)),
{
    let ghost lv = line_views(lines@);
    let mut out = String::new();
    let mut i: usize = 0;
    while i < lines.len()
        invariant
            lv == line_views(lines@),
            i <= lines.len(),
            out@ == tspans_spec(lv.take(i as int)),
        decreases lines.len() - i,
    {
        out.append("<tspan x=\"103\" dy=\"90\">");
        let e = escape_xml(lines[i].as_str());
        out.append(e.as_str());
        out.append("</tspan>");
        proof {
            lemma_tspans_take_step(lv, i as int);
            assert(out@ =~= tspans_spec(lv.take(i as int)) + tspan_item(lv[i as int]));
        }
        i = i + 1;
    }
    proof {
        assert(lv.take(lines@.len() as int) =~~= lv);
    }
    out
}

/// The title block: the title wrapped at a 24-character budget, capped at
/// three lines with an ellipsis on overflow, set at 72px bold near the
/// top-left corner.
pub open spec fn title_block(m: OGImageModel) -> Seq<char> {
    "<text x=\"103\" y=\"128\" font-size=\"72\" fill=\""@ + palette_spec(m.theme).title
        + "\" font-weight=\"700\">"@ + tspans_spec(ellipsize(wrap_lines(m.title, 24), 3))
        + "</text>"@
}

/// The author line: 48px bold, right of the avatar, ascending baseline.
pub open spec fn author_line(m: OGImageModel) -> Seq<char> {
    "<text x=\"198\" y=\"500\" dominant-baseline=\"auto\" font-weight=\"700\" fill=\""@
        + palette_spec(m.theme).author + "\" font-size=\"48\">"@ + escape_seq(m.author)
        + "</text>"@
}

/// The url line: 32px regular, directly below the author line, hanging
/// baseline.
pub open spec fn url_line(m: OGImageModel) -> Seq<char> {
    "<text x=\"198\" y=\"504\" dominant-baseline=\"hanging\" font-weight=\"400\" fill=\""@
        + palette_spec(m.theme).url + "\" font-size=\"32\">"@ + escape_seq(m.url) + "</text>"@
}

/// Everything before the first occurrence of the clip identifier: document
/// header, font style rule, background rectangle, title block, author and
/// url lines, and the opening of the clip-path definition.
pub open spec fn svg_head(m: OGImageModel) -> Seq<char> {
    "<svg xmlns=\"http://www.w3.org/2000/svg\" viewBox=\"0 0 1200 630\" width=\"1200\" height=\"630\"><style>text { font-family: 'Open Sans', Arial, sans-serif; }</style><rect x=\"0\" y=\"0\" width=\"1200\" height=\"630\" fill=\""@
        + palette_spec(m.theme).background + "\" stroke=\""@ + palette_spec(m.theme).title
        + "\" stroke-width=\"16\"></rect>"@ + title_block(m) + author_line(m) + url_line(m)
        + "<defs><clipPath id=\""@
}

/// Between the two occurrences of the clip identifier: the clip circle and
/// the opening of the clipped group.
pub open spec fn svg_mid() -> Seq<char> {
    "\"><circle cx=\"128\" cy=\"502\" r=\"50\"></circle></clipPath></defs><g clip-path=\"url(#"@
}

/// Everything after the second occurrence of the clip identifier: the photo
/// image inside the clip, the decorative ring, and the closing tags.
pub open spec fn svg_tail(m: OGImageModel) -> Seq<char> {
    ")\"><image href=\""@ + escape_seq(m.photo)
        + "\" x=\"78\" y=\"452\" width=\"100\" height=\"100\"></image><circle cx=\"128\" cy=\"502\" r=\"50\" stroke=\""@
        + palette_spec(m.theme).title + "\" stroke-width=\"4\" fill=\"none\"></circle></g></svg>"@
}

/// The whole vector document for request `m` with clip identifier `id`.
pub open spec fn svg_doc(m: OGImageModel, id: Seq<char>) -> Seq<char> {
    svg_head(m) + id + svg_mid() + id + svg_tail(m)
}

/// Why a rasterization failed.
#[derive(Clone, Copy, Debug, PartialEq, Eq, Structural)]
pub enum RenderError {
    /// The vector document could not be parsed, or declared an unexpected
    /// intrinsic size.
    InvalidDocument,
    /// The pixel surface could not be allocated or encoded.
    RasterFailed,
}

impl OGImage {
    /// The default request, used by the caller when a field is left empty.
    pub fn default() -> (r: OGImage)
        ensures
            r.title@ == "Dynamic Open Graph Image Generator"@,
            r.photo@ == "https://avatars.githubusercontent.com/u/825754"@,
            r.author@ == "vladkens"@,
            r.url@ == "vnotes.pages.dev"@,
            r.theme == OGTheme::Default,
    {
        OGImage {
            title: String::from_str("Dynamic Open Graph Image Generator"),
            photo: String::from_str("https://avatars.githubusercontent.com/u/825754"),
            author: String::from_str("vladkens"),
            url: String::from_str("vnotes.pages.dev"),
            theme: OGTheme::Default,
        }
    }

    /// Builds a request from raw caller input: each text field is trimmed,
    /// and a field that trims to nothing is replaced by its documented
    /// default.
    pub fn with_defaults(title: &str, photo: &str, author: &str, url: &str, theme: OGTheme) -> (r:
        OGImage)
        ensures
            r.title@ == str_or_val_spec(title@, "Dynamic Open Graph Image Generator"@),
            r.photo@ == str_or_val_spec(photo@, "https://avatars.githubusercontent.com/u/825754"@),
            r.author@ == str_or_val_spec(author@, "vladkens"@),
            r.url@ == str_or_val_spec(url@, "vnotes.pages.dev"@),
            r.theme == theme,
    {
        OGImage {
            title: str_or_val(title, "Dynamic Open Graph Image Generator"),
            photo: str_or_val(photo, "https://avatars.githubusercontent.com/u/825754"),
            author: str_or_val(author, "vladkens"),
            url: str_or_val(url, "vnotes.pages.dev"),
            theme,
        }
    }

    /// The palette of this request's theme.
    pub fn c(&self) -> (p: Palette)
        ensures
            p@ == palette_spec(self.theme),
    {
        resolve(self.theme)
    }

    /// Assembles the vector document for this request around the given clip
    /// identifier. Deterministic: the result is exactly the document that
    /// [`svg_doc`] describes.
    #[verifier::rlimit(100)]
    pub fn compose_with_id(&self, clip_id: &str) -> (r: String)
        ensures
            r@ == svg_doc(self@, clip_id@),
    {
        let p = self.c();
        let mut out = String::from_str(
            "<svg xmlns=\"http://www.w3.org/2000/svg\" viewBox=\"0 0 1200 630\" width=\"1200\" height=\"630\"><style>text { font-family: 'Open Sans', Arial, sans-serif; }</style><rect x=\"0\" y=\"0\" width=\"1200\" height=\"630\" fill=\"",
        );
        out.append(p.background);
        out.append("\" stroke=\"");
        out.append(p.title);
        out.append("\" stroke-width=\"16\"></rect>");
        out.append("<text x=\"103\" y=\"128\" font-size=\"72\" fill=\"");
        out.append(p.title);
        out.append("\" font-weight=\"700\">");
        let lines = wrap_capped(self.title.as_str(), 24, 3);
        let spans = title_spans(&lines);
        out.append(spans.as_str());
        out.append("</text>");
        out.append("<text x=\"198\" y=\"500\" dominant-baseline=\"auto\" font-weight=\"700\" fill=\"");
        out.append(p.author);
        out.append("\" font-size=\"48\">");
        let ea = escape_xml(self.author.as_str());
        out.append(ea.as_str());
        out.append("</text>");
        out.append(
            "<text x=\"198\" y=\"504\" dominant-baseline=\"hanging\" font-weight=\"400\" fill=\"",
        );
        out.append(p.url);
        out.append("\" font-size=\"32\">");
        let eu = escape_xml(self.url.as_str());
        out.append(eu.as_str());
        out.append("</text>");
        out.append("<defs><clipPath id=\"");
        proof {
            assert(out@ =~= svg_head(self@));
        }
        out.append(clip_id);
        out.append(
            "\"><circle cx=\"128\" cy=\"502\" r=\"50\"></circle></clipPath></defs><g clip-path=\"url(#",
        );
        proof {
            assert(out@ =~= svg_head(self@) + clip_id@ + svg_mid());
        }
        out.append(clip_id);
        out.append(")\"><image href=\"");
        let ep = escape_xml(self.photo.as_str());
        out.append(ep.as_str());
        out.append(
            "\" x=\"78\" y=\"452\" width=\"100\" height=\"100\"></image><circle cx=\"128\" cy=\"502\" r=\"50\" stroke=\"",
        );
        out.append(p.title);
        out.append("\" stroke-width=\"4\" fill=\"none\"></circle></g></svg>");
        proof {
            assert(out@ =~= svg_doc(self@, clip_id@));
        }
        out
    }

    /// Produces the vector document for this request, namespaced by a fresh
    /// random clip identifier: the result is exactly the document that
    /// [`svg_doc`] describes, for some well-formed identifier.
    pub fn render_svg(&self) -> (r: String)
        ensures
            exists|id: Seq<char>| valid_id(id) && r@ == #[trigger] svg_doc(self@, id),
    {
        let id = safe_id();
        let r = self.compose_with_id(id.as_str());
        proof {
            assert(valid_id(id@) && r@ == svg_doc(self@, id@));
        }
        r
    }

    /// Rasterizes this request's vector document to PNG bytes. On success
    /// the PNG declares exactly 1200 by 630 pixels; a document that fails to
    /// parse or declares another size is an invalid-document error, a
    /// surface or encoding failure a raster error.
    pub fn render_png(&self) -> (r: Result<Vec<u8>, RenderError>)
        ensures
            r matches Ok(png) ==> png_sized(png@, 1200, 630),
    {
        let svg = self.render_svg();
        let tree = match parse_svg(svg.as_str()) {
            None => {
                return Err(RenderError::InvalidDocument);
            },
            Some(t) => t,
        };
        let (w, h) = tree_int_size(&tree);
        if let Err(e) = check_intrinsic_size(w, h) {
            return Err(e);
        }
        match raster_tree_png(&tree, w, h) {
            None => Err(RenderError::RasterFailed),
            Some(png) => Ok(png),
        }
    }
}

/// Decides whether a parsed document's intrinsic size is the fixed 1200x630
/// canvas; any other size marks the document invalid.
pub fn check_intrinsic_size(w: u32, h: u32) -> (r: Result<(), RenderError>)
    ensures
        r is Ok <==> (w == 1200 && h == 630),
        r is Err ==> r == Result::<(), RenderError>::Err(RenderError::InvalidDocument),
{
    if w == 1200 && h == 630 {
        Ok(())
    } else {
        Err(RenderError::InvalidDocument)
    }
}

/// Vector determinism modulo identifiers: the document is the same three
/// request-determined parts around the two occurrences of the identifier, so
/// two documents for one request differ only in the injected identifier.
pub proof fn lemma_vector_determinism(m: OGImageModel, id1: Seq<char>, id2: Seq<char>)
    ensures
        svg_doc(m, id1) == svg_head(m) + id1 + svg_mid() + id1 + svg_tail(m),
        svg_doc(m, id2) == svg_head(m) + id2 + svg_mid() + id2 + svg_tail(m),
{
}

/// Default substitution: when every text field trims to nothing, the
/// defaulted request is exactly the explicit default request, and renders to
/// the same document.
pub proof fn lemma_default_substitution(
    title: Seq<char>,
    photo: Seq<char>,
    author: Seq<char>,
    url: Seq<char>,
    id: Seq<char>,
)
    requires
        trim_spec(title).len() == 0,
        trim_spec(photo).len() == 0,
        trim_spec(author).len() == 0,
        trim_spec(url).len() == 0,
    ensures
        ({
            let defaulted = OGImageModel {
                title: str_or_val_spec(title, "Dynamic Open Graph Image Generator"@),
                photo: str_or_val_spec(photo, "https://avatars.githubusercontent.com/u/825754"@),
                author: str_or_val_spec(author, "vladkens"@),
                url: str_or_val_spec(url, "vnotes.pages.dev"@),
                theme: OGTheme::Default,
            };
            let explicit = OGImageModel {
                title: "Dynamic Open Graph Image Generator"@,
                photo: "https://avatars.githubusercontent.com/u/825754"@,
                author: "vladkens"@,
                url: "vnotes.pages.dev"@,
                theme: OGTheme::Default,
            };
            svg_doc(defaulted, id) == svg_doc(explicit, id)
        }),
{
}

} // verus!
