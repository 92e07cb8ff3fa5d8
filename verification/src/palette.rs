//! Theme-to-palette resolution: a closed set of theme names, each mapped to a
//! four-color palette (background, title, author, url), every color a hex RGB
//! string.

use vstd::prelude::*;

verus! {

/// The closed set of visual themes.
#[derive(Clone, Copy, Debug, PartialEq, Eq, Structural)]
pub enum OGTheme {
    Default,
    NightOwl,
    Github,
    Matrix,
    Dracula,
    Tinacious,
    ShadesOfPurple,
}

/// The four colors a theme resolves to, each a `#rrggbb` hex string.
pub struct Palette {
    pub background: &'static str,
    pub title: &'static str,
    pub author: &'static str,
    pub url: &'static str,
}

/// Mathematical model of a palette: the four color strings as char sequences.
pub struct PaletteModel {
    pub background: Seq<char>,
    pub title: Seq<char>,
    pub author: Seq<char>,
    pub url: Seq<char>,
}

impl View for Palette {
    type V = PaletteModel;

    open spec fn view(&self) -> PaletteModel {
        PaletteModel {
            background: self.background@,
            title: self.title@,
            author: self.author@,
            url: self.url@,
        }
    }
}

/// The palette each theme resolves to.
pub open spec fn palette_spec(theme: OGTheme) -> PaletteModel {
    match theme {
        OGTheme::Default => PaletteModel {
            background: "#000000"@,
            title: "#ffffff"@,
            author: "#ffffff"@,
            url: "#ffffff"@,
        },
        OGTheme::NightOwl => PaletteModel {
            background: "#011627"@,
            title: "#c792ea"@,
            author: "#f07178"@,
            url: "#82aaff"@,
        },
        OGTheme::Github => PaletteModel {
            background: "#f0f0f0"@,
            title: "#2f363c"@,
            author: "#005cc5"@,
            url: "#d73a49"@,
        },
        OGTheme::Matrix => PaletteModel {
            background: "#003300"@,
            title: "#00ff00"@,
            author: "#ccffcc"@,
            url: "#ff6666"@,
        },
        OGTheme::Dracula => PaletteModel {
            background: "#191a21"@,
            title: "#bd93f9"@,
            author: "#ff79c6"@,
            url: "#f8f8f2"@,
        },
        OGTheme::Tinacious => PaletteModel {
            background: "#ececec"@,
            title: "#ff3399"@,
            author: "#00aee8"@,
            url: "#44425e"@,
        },
        OGTheme::ShadesOfPurple => PaletteModel {
            background: "#2d2b55"@,
            title: "#b362ff"@,
            author: "#ff9d00"@,
            url: "#9effff"@,
        },
    }
}

/// Resolves a theme to its palette. Total over the enumeration: every theme
/// has an entry, and the result is exactly the table entry for `theme`.
pub fn resolve(theme: OGTheme) -> (p: Palette)
    ensures
        p@ == palette_spec(theme),
{
    match theme {
        OGTheme::Default => Palette {
            background: "#000000",
            title: "#ffffff",
            author: "#ffffff",
            url: "#ffffff",
        },
        OGTheme::NightOwl => Palette {
            background: "#011627",
            title: "#c792ea",
            author: "#f07178",
            url: "#82aaff",
        },
        OGTheme::Github => Palette {
            background: "#f0f0f0",
            title: "#2f363c",
            author: "#005cc5",
            url: "#d73a49",
        },
        OGTheme::Matrix => Palette {
            background: "#003300",
            title: "#00ff00",
            author: "#ccffcc",
            url: "#ff6666",
        },
        OGTheme::Dracula => Palette {
            background: "#191a21",
            title: "#bd93f9",
            author: "#ff79c6",
            url: "#f8f8f2",
        },
        OGTheme::Tinacious => Palette {
            background: "#ececec",
            title: "#ff3399",
            author: "#00aee8",
            url: "#44425e",
        },
        OGTheme::ShadesOfPurple => Palette {
            background: "#2d2b55",
            title: "#b362ff",
            author: "#ff9d00",
            url: "#9effff",
        },
    }
}

/// A hex digit in lower case.
pub open spec fn is_hex_digit(c: char) -> bool {
    ('0' <= c && c <= '9') || ('a' <= c && c <= 'f')
}

/// A well-formed color: `#` followed by six lower-case hex digits.
pub open spec fn is_hex_color(s: Seq<char>) -> bool {
    &&& s.len() == 7
    &&& s[0] == '#'
    &&& forall|i: int| 1 <= i < 7 ==> is_hex_digit(#[trigger] s[i])
}

/// Palette totality: every theme resolves to a palette whose four colors are
/// all well-formed hex color strings.
pub proof fn lemma_palette_totality(theme: OGTheme)
    ensures
        is_hex_color(palette_spec(theme).background),
        is_hex_color(palette_spec(theme).title),
        is_hex_color(palette_spec(theme).author),
        is_hex_color(palette_spec(theme).url),
{
    reveal_strlit("#000000");
    reveal_strlit("#ffffff");
    reveal_strlit("#011627");
    reveal_strlit("#c792ea");
    reveal_strlit("#f07178");
    reveal_strlit("#82aaff");
    reveal_strlit("#f0f0f0");
    reveal_strlit("#2f363c");
    reveal_strlit("#005cc5");
    reveal_strlit("#d73a49");
    reveal_strlit("#003300");
    reveal_strlit("#00ff00");
    reveal_strlit("#ccffcc");
    reveal_strlit("#ff6666");
    reveal_strlit("#191a21");
    reveal_strlit("#bd93f9");
    reveal_strlit("#ff79c6");
    reveal_strlit("#f8f8f2");
    reveal_strlit("#ececec");
    reveal_strlit("#ff3399");
    reveal_strlit("#00aee8");
    reveal_strlit("#44425e");
    reveal_strlit("#2d2b55");
    reveal_strlit("#b362ff");
    reveal_strlit("#ff9d00");
    reveal_strlit("#9effff");
}

} // verus!
