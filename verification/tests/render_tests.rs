use ogimage::ident::safe_id;
use ogimage::palette::OGTheme;
use ogimage::render::{check_intrinsic_size, escape_xml, OGImage};
use ogimage::RenderError;
use ogimage::str_or_val;

fn sample_request() -> OGImage {
    OGImage {
        title: "Hello World".to_string(),
        photo: "example.png".to_string(),
        author: "vladkens".to_string(),
        url: "example.com".to_string(),
        theme: OGTheme::Default,
    }
}

/// Replaces the two occurrences of the generated 10-character clip id.
fn strip_ids(doc: &str) -> String {
    let mut out = doc.to_string();
    if let Some(pos) = out.find("<clipPath id=\"") {
        let start = pos + "<clipPath id=\"".len();
        let id: String = out[start..].chars().take(10).collect();
        out = out.replace(&id, "ID");
    }
    out
}

#[test]
fn safe_id_alphabet_and_length() {
    for _ in 0..100 {
        let id = safe_id();
        assert_eq!(id.chars().count(), 10);
        assert!(id
            .chars()
            .all(|c| c.is_ascii_alphanumeric() || c == '_' || c == '-'));
    }
}

#[test]
fn compose_is_deterministic_given_id() {
    let req = sample_request();
    let a = req.compose_with_id("abcdefghij");
    let b = req.compose_with_id("abcdefghij");
    assert_eq!(a, b);
}

#[test]
fn svg_deterministic_modulo_identifiers() {
    let req = sample_request();
    let a = req.render_svg();
    let b = req.render_svg();
    assert_ne!(a, b, "two renders should carry distinct identifiers");
    assert_eq!(strip_ids(&a), strip_ids(&b));
}

#[test]
fn svg_end_to_end_example() {
    let req = sample_request();
    let doc = req.render_svg();
    // single title line, no wrap needed
    assert!(doc.contains("<tspan x=\"103\" dy=\"90\">Hello World</tspan>"));
    assert_eq!(doc.matches("<tspan").count(), 1);
    // default palette: black background, white title
    assert!(doc.contains("fill=\"#000000\""));
    assert!(doc.contains("fill=\"#ffffff\""));
    // fixed canvas
    assert!(doc.starts_with("<svg xmlns=\"http://www.w3.org/2000/svg\""));
    assert!(doc.contains("viewBox=\"0 0 1200 630\""));
    assert!(doc.contains("width=\"1200\" height=\"630\""));
    assert!(doc.ends_with("</svg>"));
    // the photo reference is embedded verbatim
    assert!(doc.contains("<image href=\"example.png\""));
}

#[test]
fn svg_escapes_markup_characters() {
    let req = OGImage {
        title: "a<b & c>\"d\"".to_string(),
        photo: "http://e/x?a=1&b=2".to_string(),
        author: "A&B".to_string(),
        url: "u<v".to_string(),
        theme: OGTheme::Github,
    };
    let doc = req.render_svg();
    assert!(doc.contains("a&lt;b &amp; c&gt;&quot;d&quot;"));
    assert!(doc.contains("href=\"http://e/x?a=1&amp;b=2\""));
    assert!(doc.contains(">A&amp;B</text>"));
    assert!(doc.contains(">u&lt;v</text>"));
}

#[test]
fn long_title_is_capped_with_ellipsis_in_svg() {
    let req = OGImage {
        title: "one two three four five six seven eight nine ten eleven twelve thirteen fourteen fifteen sixteen"
            .to_string(),
        ..sample_request()
    };
    let doc = req.render_svg();
    assert_eq!(doc.matches("<tspan").count(), 3);
    assert!(doc.contains("…</tspan>"));
}

#[test]
fn png_has_expected_dimensions() {
    let req = OGImage {
        photo: "data:image/png;base64,iVBORw0KGgoAAAANSUhEUgAAAAEAAAABCAYAAAAfFcSJAAAADUlEQVR42mNk+M9QDwADhgGAWjR9awAAAABJRU5ErkJggg==".to_string(),
        ..sample_request()
    };
    let png = req.render_png().expect("raster should succeed");
    // PNG signature
    assert_eq!(&png[0..8], &[0x89, 0x50, 0x4e, 0x47, 0x0d, 0x0a, 0x1a, 0x0a]);
    // IHDR width and height, big-endian
    let w = u32::from_be_bytes([png[16], png[17], png[18], png[19]]);
    let h = u32::from_be_bytes([png[20], png[21], png[22], png[23]]);
    assert_eq!((w, h), (1200, 630));
}

#[test]
fn default_request_values() {
    let d = OGImage::default();
    assert_eq!(d.title, "Dynamic Open Graph Image Generator");
    assert_eq!(d.photo, "https://avatars.githubusercontent.com/u/825754");
    assert_eq!(d.author, "vladkens");
    assert_eq!(d.url, "vnotes.pages.dev");
    assert!(matches!(d.theme, OGTheme::Default));
}

#[test]
fn default_substitution_renders_identically() {
    let blank = OGImage::with_defaults("  ", "", "\t", " \n ", OGTheme::Default);
    let explicit = OGImage::default();
    let a = blank.compose_with_id("abcdefghij");
    let b = explicit.compose_with_id("abcdefghij");
    assert_eq!(a, b);
}

#[test]
fn str_or_val_substitutes_on_blank() {
    assert_eq!(str_or_val("  ", "fallback"), "fallback");
    assert_eq!(str_or_val("", "fallback"), "fallback");
    assert_eq!(str_or_val("  kept  ", "fallback"), "kept");
    assert_eq!(str_or_val("kept", "fallback"), "kept");
}

#[test]
fn trim_matches_std_over_unicode_whitespace() {
    // unicode whitespace counts as blank, exactly as str::trim sees it
    for blank in ["\u{a0}", "\u{3000}", "\u{2028}", " \t\r\n\u{2003}\u{85}"] {
        assert_eq!(blank.trim(), "");
        assert_eq!(str_or_val(blank, "fallback"), "fallback");
    }
    for padded in ["\u{a0}x\u{3000}", "\u{1680}a b\u{205f}", "\u{2009}é\u{200a}"] {
        assert_eq!(str_or_val(padded, "fallback"), padded.trim());
    }
    // a non-whitespace exotic character is kept, not trimmed
    assert_eq!(str_or_val("\u{200b}", "fallback"), "\u{200b}".trim());
}

#[test]
fn intrinsic_size_gate() {
    assert_eq!(check_intrinsic_size(1200, 630), Ok(()));
    assert_eq!(check_intrinsic_size(630, 1200), Err(RenderError::InvalidDocument));
    assert_eq!(check_intrinsic_size(1200, 631), Err(RenderError::InvalidDocument));
    assert_eq!(check_intrinsic_size(1, 1), Err(RenderError::InvalidDocument));
}

#[test]
fn escape_xml_exact() {
    assert_eq!(escape_xml("a&b<c>d\"e"), "a&amp;b&lt;c&gt;d&quot;e");
    assert_eq!(escape_xml("plain"), "plain");
    assert_eq!(escape_xml(""), "");
}

#[test]
fn app_error_carries_message() {
    let r: ogimage::Res<()> = ogimage::AppError::new("Image size is unknown");
    match r {
        Err(e) => assert_eq!(e.text(), "Image size is unknown"),
        Ok(()) => panic!("expected an error"),
    }
}
