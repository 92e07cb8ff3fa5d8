use ogimage::palette::{resolve, OGTheme};

const ALL_THEMES: [OGTheme; 7] = [
    OGTheme::Default,
    OGTheme::NightOwl,
    OGTheme::Github,
    OGTheme::Matrix,
    OGTheme::Dracula,
    OGTheme::Tinacious,
    OGTheme::ShadesOfPurple,
];

fn assert_hex(s: &str) {
    assert_eq!(s.len(), 7);
    let bytes = s.as_bytes();
    assert_eq!(bytes[0], b'#');
    for &b in &bytes[1..] {
        assert!(b.is_ascii_hexdigit(), "not a hex digit in {s}");
    }
}

#[test]
fn palette_total_and_wellformed() {
    for theme in ALL_THEMES {
        let p = resolve(theme);
        assert_hex(p.background);
        assert_hex(p.title);
        assert_hex(p.author);
        assert_hex(p.url);
    }
}

#[test]
fn palette_exact_values() {
    let p = resolve(OGTheme::Default);
    assert_eq!(
        (p.background, p.title, p.author, p.url),
        ("#000000", "#ffffff", "#ffffff", "#ffffff")
    );
    let p = resolve(OGTheme::NightOwl);
    assert_eq!(
        (p.background, p.title, p.author, p.url),
        ("#011627", "#c792ea", "#f07178", "#82aaff")
    );
    let p = resolve(OGTheme::Github);
    assert_eq!(
        (p.background, p.title, p.author, p.url),
        ("#f0f0f0", "#2f363c", "#005cc5", "#d73a49")
    );
    let p = resolve(OGTheme::Matrix);
    assert_eq!(
        (p.background, p.title, p.author, p.url),
        ("#003300", "#00ff00", "#ccffcc", "#ff6666")
    );
    let p = resolve(OGTheme::Dracula);
    assert_eq!(
        (p.background, p.title, p.author, p.url),
        ("#191a21", "#bd93f9", "#ff79c6", "#f8f8f2")
    );
    let p = resolve(OGTheme::Tinacious);
    assert_eq!(
        (p.background, p.title, p.author, p.url),
        ("#ececec", "#ff3399", "#00aee8", "#44425e")
    );
    let p = resolve(OGTheme::ShadesOfPurple);
    assert_eq!(
        (p.background, p.title, p.author, p.url),
        ("#2d2b55", "#b362ff", "#ff9d00", "#9effff")
    );
}
