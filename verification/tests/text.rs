use gpui_studio::excerpt::{
    bounded_excerpt, diagnostic_summary, gpui_element_excerpt, html_element_excerpt, SizeLabels,
};
use gpui_studio::identifiers::{
    annotation_number, authored_name, component_id, is_portable_identifier, is_portable_type,
    parse_component_props,
};
use gpui_studio::panel_rows::{clock, level_color, level_label};
use gpui_studio::text;
use gpui_studio::text_set::{comes_before, TextSet};
use gpui_studio::values::{
    format_optional_color, optional_i16_value, optional_u16_value, parse_bounded_i16,
    parse_bounded_u16, parse_optional_bounded_i16, parse_optional_bounded_u16,
    parse_optional_color,
};

#[test]
fn white_space_is_that_of_the_standard_library() {
    for code in 0..=0x10_ffff_u32 {
        if let Some(c) = char::from_u32(code) {
            assert_eq!(text::white_space(c), c.is_whitespace(), "{code:x}");
        }
    }
}

#[test]
fn texts_are_trimmed_at_both_ends() {
    assert_eq!(text::trim("  a b\u{3000}\n"), "a b");
    assert_eq!(text::trim(" \t "), "");
    assert_eq!(text::trim(text::trim("  x  ")), "x");
}

#[test]
fn numbers_are_written_and_read_back() {
    assert_eq!(text::decimal(0), "0");
    assert_eq!(text::decimal(u64::MAX), "18446744073709551615");
    assert_eq!(text::decimal_signed(-32768), "-32768");
    assert_eq!(text::pad_zeros("42", 6), "000042");
    assert_eq!(text::pad_zeros("1234567", 6), "1234567");
    assert_eq!(text::hexadecimal(0x00ab_cdef), "abcdef");
    for n in [0_u16, 1, 9, 10, 255, 65535] {
        assert_eq!(text::parse_u16(&text::decimal(u64::from(n))), Some(n));
    }
    for n in [0_i16, -1, 32767, -32768] {
        assert_eq!(text::parse_i16(&text::decimal_signed(i64::from(n))), Some(n));
    }
    for input in ["", "+", "-", "65536", "1.5", " 1", "１"] {
        assert_eq!(text::parse_u16(input), input.parse::<u16>().ok(), "{input}");
    }
    for input in ["+7", "-0", "32768", "-32769", "--1", "0x1"] {
        assert_eq!(text::parse_i16(input), input.parse::<i16>().ok(), "{input}");
    }
    assert_eq!(text::parse_u16("+7"), "+7".parse::<u16>().ok());
}

#[test]
fn texts_are_cut_at_character_boundaries() {
    assert_eq!(text::cut_to_bytes("añb", 2), "a");
    assert_eq!(text::cut_to_bytes("añb", 3), "añ");
    assert_eq!(text::cut_to_bytes("añb", 9), "añb");
    assert_eq!(text::bytes_in("añ→"), 6);
}

#[test]
fn the_first_letters_of_a_name_are_capitalized() {
    assert_eq!(authored_name("hero-title"), "HeroTitle");
    assert_eq!(authored_name("runtime_building-card"), "RuntimeBuildingCard");
    assert_eq!(authored_name("straße-ärger"), "StraßeÄrger");
    assert_eq!(authored_name("ßein"), "SSein");
}

#[test]
fn component_ids_are_lower_case_words() {
    assert_eq!(component_id("App Titlebar"), "app-titlebar");
    assert_eq!(component_id("  Two  Words! "), "two-words");
    assert_eq!(component_id("***"), "component");
}

#[test]
fn comment_ids_show_their_number() {
    assert_eq!(annotation_number("comment-000007"), "7");
    assert_eq!(annotation_number("comment-001200"), "1200");
}

#[test]
fn portable_identifiers_and_types_are_recognized() {
    assert!(is_portable_identifier("snake_case1"));
    assert!(!is_portable_identifier("1abc"));
    assert!(!is_portable_identifier(""));
    assert!(is_portable_identifier("with-dash.dot"));
    assert!(!is_portable_identifier("with space"));
    assert!(is_portable_identifier(&"x".repeat(128)));
    assert!(!is_portable_identifier(&"x".repeat(129)));
    assert!(is_portable_type("bool"));
    assert!(is_portable_type("String"));
    assert!(!is_portable_type("Vec<u8>"));
}

#[test]
fn declared_properties_are_read() {
    let props = parse_component_props("title: String, active: bool, : u8, bad-name: bool");
    let shown: Vec<(&str, &str)> =
        props.iter().map(|prop| (prop.name.as_str(), prop.value_type.as_str())).collect();
    assert!(shown.contains(&("title", "String")));
    assert!(shown.contains(&("active", "bool")));
    assert!(!shown.iter().any(|(name, _)| name.is_empty()));
    assert!(parse_component_props("").is_empty());
}

#[test]
fn colors_are_written_and_read_back() {
    assert_eq!(format_optional_color(Some(0x00ab_cdef)), "#abcdef");
    assert_eq!(format_optional_color(Some(0x0f)), "#00000f");
    assert_eq!(format_optional_color(None), "transparent");
    assert_eq!(parse_optional_color(" #aBcDeF "), Ok(Some(0x00ab_cdef)));
    assert_eq!(parse_optional_color("Transparent"), Ok(None));
    assert_eq!(parse_optional_color("none"), Ok(None));
    assert_eq!(
        parse_optional_color("red"),
        Err("Color must use #RRGGBB or transparent".to_owned())
    );
    assert!(parse_optional_color("#12345").is_err());
    assert!(parse_optional_color("#12345g").is_err());
    for color in [0_u32, 1, 0x12_34_56, 0xff_ff_ff] {
        assert_eq!(parse_optional_color(&format_optional_color(Some(color))), Ok(Some(color)));
    }
}

#[test]
fn bounded_numbers_are_read() {
    assert_eq!(parse_bounded_u16(" 12 ", 1, 24, "Columns"), Ok(12));
    assert!(parse_bounded_u16("0", 1, 24, "Columns").is_err());
    assert!(parse_bounded_u16("25", 1, 24, "Columns").is_err());
    assert_eq!(parse_bounded_i16("-360", -360, 360, "Rotation"), Ok(-360));
    assert!(parse_bounded_i16("-361", -360, 360, "Rotation").is_err());
    assert_eq!(parse_optional_bounded_u16("", 0, 10, "Basis"), Ok(None));
    assert_eq!(parse_optional_bounded_u16("AUTO", 0, 10, "Basis"), Ok(None));
    assert_eq!(parse_optional_bounded_u16("7", 0, 10, "Basis"), Ok(Some(7)));
    assert_eq!(parse_optional_bounded_i16("-7", -10, 10, "Left"), Ok(Some(-7)));
    assert_eq!(optional_u16_value(Some(7)), "7");
    assert_eq!(optional_u16_value(None), "");
    assert_eq!(optional_i16_value(Some(-7)), "-7");
}

#[test]
fn selected_inline_html_is_formatted_for_the_inspector() {
    assert_eq!(
        html_element_excerpt(
            "<main><h1 id=\"hero-title\">Build GPUI live.</h1></main>",
            "hero-title"
        )
        .as_deref(),
        Some("<h1 id=\"hero-title\">\n  Build GPUI live.\n</h1>")
    );
}

#[test]
fn an_absent_element_has_no_excerpt() {
    assert_eq!(html_element_excerpt("<main></main>", "hero-title"), None);
}

#[test]
fn long_sources_are_cut() {
    let short = bounded_excerpt("<p>\n  a   b\n</p>", 920);
    assert_eq!(short, "<p> a b </p>");
    let long = bounded_excerpt(&"word ".repeat(400), 920);
    assert!(long.ends_with('…'));
    assert!(long.len() <= 920 + '…'.len_utf8());
}

#[test]
fn native_excerpts_quote_their_texts() {
    let excerpt = gpui_element_excerpt(
        "hero-title",
        Some(SizeLabels { width: "200".to_owned(), height: "40".to_owned() }),
        Some("Say \"hi\"\n".to_owned()),
        None,
    );
    assert!(excerpt.contains("\"hero-title\""), "{excerpt}");
    assert!(excerpt.contains("\"Say \\\"hi\\\"\\n\""), "{excerpt}");
    assert!(excerpt.contains("200"), "{excerpt}");
}

#[test]
fn the_first_diagnostic_is_told() {
    assert_eq!(diagnostic_summary(&vec!["first".to_owned(), "second".to_owned()]), "first");
    assert_eq!(diagnostic_summary(&Vec::new()), "unknown validation failure");
}

#[test]
fn text_sets_keep_text_order() {
    let mut set = TextSet::new();
    assert!(set.insert("b"));
    assert!(set.insert("a"));
    assert!(!set.insert("b"));
    set.extend(&vec!["aa".to_owned(), "Z".to_owned()]);
    assert_eq!(set.to_vec(), vec!["Z", "a", "aa", "b"]);
    assert_eq!(set.len(), 4);
    assert!(set.remove("aa"));
    assert!(!set.contains("aa"));
    set.toggle("c");
    set.toggle("c");
    assert_eq!(set.to_vec(), vec!["Z", "a", "b"]);
    for (a, b) in [("a", "b"), ("a", "aa"), ("Z", "a"), ("ä", "z"), ("", "a"), ("a", "a")] {
        assert_eq!(comes_before(a, b), a < b, "{a} {b}");
        assert_eq!(comes_before(b, a), b < a, "{b} {a}");
    }
}

#[test]
fn times_of_day_have_two_digits_each() {
    assert_eq!(clock(0), "00:00:00");
    assert_eq!(clock(86_399_999), "23:59:59");
    assert_eq!(clock(86_400_000), "00:00:00");
    assert_eq!(clock(3_723_000), "01:02:03");
}

#[test]
fn levels_are_shown_in_capitals() {
    assert_eq!(level_label("warn"), "WARN");
    assert_eq!(level_label("straße"), "STRASSE");
    assert_eq!(level_color("error"), 0xe8626f);
    assert_eq!(level_color("warn"), 0xf3a34d);
    assert_eq!(level_color("debug"), 0x676d7a);
    assert_eq!(level_color("info"), 0x6e7bff);
}
