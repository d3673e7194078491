use castor::settings::{
    background_color, fits, get_finger_font_family, get_finger_font_size, get_gemini_h1_font_family,
    get_gemini_h1_font_size, get_gemini_h1_font_style, get_gemini_h2_font_family,
    get_gemini_h2_font_size, get_gemini_h2_font_style, get_gemini_h3_font_family,
    get_gemini_h3_font_size, get_gemini_h3_font_style, get_gemini_list_font_family,
    get_gemini_list_font_size, get_gemini_list_font_style, get_gemini_text_font_family,
    get_gemini_text_font_size, get_gopher_font_family, get_gopher_font_size, get_h1_character,
    get_h1_color, get_h2_character, get_h2_color, get_h3_character, get_h3_color,
    get_list_character, get_list_color, get_text_color, scaled_or, start_url, text_or, Character,
    Color, Font, FontAttr, GeminiFontAttr, General, Settings,
};

fn empty() -> Settings {
    Settings { general: None, colors: None, characters: None, fonts: None }
}

fn font(family: &str, style: &str, size: i32) -> Option<FontAttr> {
    Some(FontAttr { family: Some(family.to_string()), style: Some(style.to_string()), size: Some(size) })
}

fn full() -> Settings {
    let s = |t: &str| Some(t.to_string());
    Settings {
        general: Some(General { start_url: s("gemini://h.org") }),
        colors: Some(Color { h1: s("red"), h2: s("#010203"), h3: s("blue"), list: s("pink"), text: s("white"), background: s("grey") }),
        characters: Some(Character { h1: s("#"), h2: s("##"), h3: s("###"), list: s("-") }),
        fonts: Some(Font {
            finger: font("ff", "fs", 9),
            gemini: Some(GeminiFontAttr {
                text: font("tf", "ts", 10),
                h1: font("1f", "1s", 21),
                h2: font("2f", "2s", 22),
                h3: font("3f", "3s", 23),
                list: font("lf", "ls", 12),
            }),
            gopher: font("gf", "gs", 8),
        }),
    }
}

#[test]
fn defaults_where_nothing_is_set() {
    let s = empty();
    assert_eq!(start_url(&s), None);
    assert_eq!(background_color(&s), None);
    assert_eq!(get_h1_color(&s), "#9932CC");
    assert_eq!(get_h2_color(&s), "#FF1493");
    assert_eq!(get_h3_color(&s), "#87CEFA");
    assert_eq!(get_list_color(&s), "green");
    assert_eq!(get_text_color(&s), "black");
    assert_eq!(get_h1_character(&s), "");
    assert_eq!(get_h2_character(&s), "");
    assert_eq!(get_h3_character(&s), "");
    assert_eq!(get_list_character(&s), "\u{25a0}");
    for family in [
        get_finger_font_family(&s),
        get_gopher_font_family(&s),
        get_gemini_text_font_family(&s),
        get_gemini_h1_font_family(&s),
        get_gemini_h2_font_family(&s),
        get_gemini_h3_font_family(&s),
        get_gemini_list_font_family(&s),
    ] {
        assert_eq!(family, "serif");
    }
    for style in [
        get_gemini_h1_font_style(&s),
        get_gemini_h2_font_style(&s),
        get_gemini_h3_font_style(&s),
        get_gemini_list_font_style(&s),
    ] {
        assert_eq!(style, "normal");
    }
    assert_eq!(get_finger_font_size(&s), 11 * 1024);
    assert_eq!(get_gopher_font_size(&s), 11 * 1024);
    assert_eq!(get_gemini_text_font_size(&s), 11 * 1024);
    assert_eq!(get_gemini_list_font_size(&s), 11 * 1024);
    assert_eq!(get_gemini_h1_font_size(&s), 16 * 1024);
    assert_eq!(get_gemini_h2_font_size(&s), 13 * 1024);
    assert_eq!(get_gemini_h3_font_size(&s), 12 * 1024);
}

#[test]
fn values_where_they_are_set() {
    let s = full();
    assert_eq!(start_url(&s), Some("gemini://h.org".to_string()));
    assert_eq!(background_color(&s), Some("grey".to_string()));
    assert_eq!(get_h1_color(&s), "red");
    assert_eq!(get_h2_color(&s), "#010203");
    assert_eq!(get_h3_color(&s), "blue");
    assert_eq!(get_list_color(&s), "pink");
    assert_eq!(get_text_color(&s), "white");
    assert_eq!(get_h1_character(&s), "#");
    assert_eq!(get_h2_character(&s), "##");
    assert_eq!(get_h3_character(&s), "###");
    assert_eq!(get_list_character(&s), "-");
    assert_eq!(get_finger_font_family(&s), "ff");
    assert_eq!(get_gopher_font_family(&s), "gf");
    assert_eq!(get_gemini_text_font_family(&s), "tf");
    assert_eq!(get_gemini_h1_font_family(&s), "1f");
    assert_eq!(get_gemini_h2_font_family(&s), "2f");
    assert_eq!(get_gemini_h3_font_family(&s), "3f");
    assert_eq!(get_gemini_list_font_family(&s), "lf");
    assert_eq!(get_gemini_h1_font_style(&s), "1s");
    assert_eq!(get_gemini_h2_font_style(&s), "2s");
    assert_eq!(get_gemini_h3_font_style(&s), "3s");
    assert_eq!(get_gemini_list_font_style(&s), "ls");
    assert_eq!(get_finger_font_size(&s), 9 * 1024);
    assert_eq!(get_gopher_font_size(&s), 8 * 1024);
    assert_eq!(get_gemini_text_font_size(&s), 10 * 1024);
    assert_eq!(get_gemini_h1_font_size(&s), 21 * 1024);
    assert_eq!(get_gemini_h2_font_size(&s), 22 * 1024);
    assert_eq!(get_gemini_h3_font_size(&s), 23 * 1024);
    assert_eq!(get_gemini_list_font_size(&s), 12 * 1024);
}

#[test]
fn parts_that_are_half_there() {
    let mut s = empty();
    s.colors = Some(Color { h1: None, h2: Some("x".to_string()), h3: None, list: None, text: None, background: None });
    assert_eq!(get_h1_color(&s), "#9932CC");
    assert_eq!(get_h2_color(&s), "x");
    assert_eq!(background_color(&s), None);
    s.fonts = Some(Font {
        finger: Some(FontAttr { family: None, style: None, size: None }),
        gemini: Some(GeminiFontAttr { text: None, h1: Some(FontAttr { family: None, style: None, size: Some(3) }), h2: None, h3: None, list: None }),
        gopher: None,
    });
    assert_eq!(get_finger_font_family(&s), "serif");
    assert_eq!(get_finger_font_size(&s), 11 * 1024 * 1024);
    assert_eq!(get_gemini_h1_font_size(&s), 3 * 1024);
    assert_eq!(get_gemini_h1_font_family(&s), "serif");
    assert_eq!(get_gemini_h2_font_size(&s), 13 * 1024);
    s.general = Some(General { start_url: None });
    assert_eq!(start_url(&s), None);
}

#[test]
fn fallbacks() {
    assert_eq!(text_or(None, "d"), "d");
    assert_eq!(text_or(Some("v".to_string()), "d"), "v");
    assert_eq!(scaled_or(None, 7), 7);
    assert_eq!(scaled_or(Some(2), 7), 2048);
    assert_eq!(scaled_or(Some(-1), 7), -1024);
    assert_eq!(scaled_or(Some(2097151), 7), 2147482624);
}

#[test]
fn sizes_that_fit() {
    assert!(fits(None));
    assert!(fits(Some(0)));
    assert!(fits(Some(2097151)));
    assert!(!fits(Some(2097152)));
    assert!(fits(Some(-2097152)));
    assert!(!fits(Some(-2097153)));
    assert_eq!(scaled_or(Some(-2097152), 0), i32::MIN);
}
