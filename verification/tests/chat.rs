use server_list_ping::chat::{
    center, render_chat, render_legacy, render_lines, render_text, sequence_of, shown_width,
    style_of, ChatComponent, Style, SubComponent,
};
use server_list_ping::error::{Error, RenderFault};

const RESET: &str = "\u{1b}[0m";

#[test]
fn legacy_red_then_reset_then_plain() {
    let out = render_legacy("§cHello§r World").unwrap();
    assert_eq!(out, "\u{1b}[0m\u{1b}[38;2;255;85;85mHello\u{1b}[0m World\u{1b}[0m");
}

#[test]
fn legacy_text_without_codes_ends_in_a_reset() {
    assert_eq!(render_legacy("A Server").unwrap(), format!("A Server{RESET}"));
    assert_eq!(render_legacy("").unwrap(), RESET);
}

#[test]
fn every_colour_code_has_its_palette_entry() {
    let palette: [(char, (u8, u8, u8)); 16] = [
        ('0', (0x00, 0x00, 0x00)),
        ('1', (0x00, 0x00, 0xaa)),
        ('2', (0x00, 0xaa, 0x00)),
        ('3', (0x00, 0xaa, 0xaa)),
        ('4', (0xaa, 0x00, 0x00)),
        ('5', (0xaa, 0x00, 0xaa)),
        ('6', (0xff, 0xaa, 0x00)),
        ('7', (0xaa, 0xaa, 0xaa)),
        ('8', (0x55, 0x55, 0x55)),
        ('9', (0x55, 0x55, 0xff)),
        ('a', (0x55, 0xff, 0x55)),
        ('b', (0x55, 0xff, 0xff)),
        ('c', (0xff, 0x55, 0x55)),
        ('d', (0xff, 0x55, 0xff)),
        ('e', (0xff, 0xff, 0x55)),
        ('f', (0xff, 0xff, 0xff)),
    ];
    for (code, (r, g, b)) in palette {
        assert_eq!(style_of(code), Ok(Style::Color(r, g, b)));
        assert_eq!(
            sequence_of(Style::Color(r, g, b)),
            format!("{RESET}\u{1b}[38;2;{r};{g};{b}m")
        );
    }
}

#[test]
fn style_codes() {
    assert_eq!(style_of('l'), Ok(Style::Bold));
    assert_eq!(style_of('m'), Ok(Style::Strikethrough));
    assert_eq!(style_of('n'), Ok(Style::Underline));
    assert_eq!(style_of('o'), Ok(Style::Italic));
    assert_eq!(style_of('r'), Ok(Style::Reset));
    assert_eq!(sequence_of(Style::Bold), format!("{RESET}\u{1b}[1m"));
    assert_eq!(sequence_of(Style::Italic), format!("{RESET}\u{1b}[3m"));
    assert_eq!(sequence_of(Style::Underline), format!("{RESET}\u{1b}[4m"));
    assert_eq!(sequence_of(Style::Strikethrough), format!("{RESET}\u{1b}[9m"));
    assert_eq!(sequence_of(Style::Reset), RESET);
}

#[test]
fn obfuscated_style_is_refused() {
    assert_eq!(style_of('k'), Err(RenderFault::ObfuscatedStyle));
    assert_eq!(
        render_legacy("a§kb"),
        Err(Error::UnsupportedRender(RenderFault::ObfuscatedStyle))
    );
}

#[test]
fn unknown_code_is_refused() {
    assert_eq!(style_of('z'), Err(RenderFault::UnknownCode));
    assert_eq!(style_of('A'), Err(RenderFault::UnknownCode));
    assert_eq!(render_legacy("§zoo"), Err(Error::UnsupportedRender(RenderFault::UnknownCode)));
}

#[test]
fn escape_at_the_end_is_refused() {
    assert_eq!(render_legacy("abc§"), Err(Error::UnsupportedRender(RenderFault::DanglingEscape)));
    assert_eq!(render_legacy("§"), Err(Error::UnsupportedRender(RenderFault::DanglingEscape)));
}

#[test]
fn the_first_fault_is_the_one_reported() {
    assert_eq!(render_legacy("§k§z"), Err(Error::UnsupportedRender(RenderFault::ObfuscatedStyle)));
    assert_eq!(render_legacy("§z§k§"), Err(Error::UnsupportedRender(RenderFault::UnknownCode)));
}

#[test]
fn codes_next_to_each_other() {
    assert_eq!(
        render_legacy("§l§nX").unwrap(),
        format!("{RESET}\u{1b}[1m{RESET}\u{1b}[4mX{RESET}")
    );
}

#[test]
fn shown_width_counts_characters_not_bytes() {
    assert_eq!(shown_width("AB"), Some(2));
    assert_eq!(shown_width("§cAB§r"), Some(2));
    assert_eq!(shown_width("§e日本語"), Some(3));
    assert_eq!(shown_width(""), Some(0));
    assert_eq!(shown_width("§§§"), Some(1));
}

#[test]
fn center_pads_the_shorter_line_on_both_sides() {
    assert_eq!(center("AB", "ABCD", 2, 4), " AB \nABCD");
    assert_eq!(center("ABCD", "AB", 4, 2), "ABCD\n AB ");
    assert_eq!(center("AB", "AB", 2, 2), "AB\nAB");
}

#[test]
fn center_rounds_half_the_difference_down() {
    assert_eq!(center("A", "ABCD", 1, 4), " A \nABCD");
    assert_eq!(center("A", "AB", 1, 2), "A\nAB");
    assert_eq!(center("ABCDEFG", "", 7, 0), "ABCDEFG\n      ");
}

#[test]
fn centering_two_lines() {
    assert_eq!(render_text("AB\nABCD").unwrap(), format!(" AB{RESET} \nABCD{RESET}"));
}

#[test]
fn centering_goes_by_what_is_shown() {
    let out = render_text("§cAB§r\nABCD").unwrap();
    assert_eq!(
        out,
        format!(" {RESET}\u{1b}[38;2;255;85;85mAB{RESET}{RESET} \nABCD{RESET}")
    );
    let same = render_text("§cABCD\nABCD").unwrap();
    assert_eq!(same, format!("{RESET}\u{1b}[38;2;255;85;85mABCD{RESET}\nABCD{RESET}"));
}

#[test]
fn lines_are_rendered_by_the_widths_given() {
    assert_eq!(render_lines("AB", "ABCD", 0, 4).unwrap(), format!("  AB{RESET}  \nABCD{RESET}"));
    assert_eq!(
        render_lines("AB", "§k", 1, 1),
        Err(Error::UnsupportedRender(RenderFault::ObfuscatedStyle))
    );
}

#[test]
fn text_of_one_line_or_of_three_is_not_centred() {
    assert_eq!(render_text("ABCD").unwrap(), format!("ABCD{RESET}"));
    assert_eq!(render_text("A\nBCD\nEF").unwrap(), format!("A\nBCD\nEF{RESET}"));
}

#[test]
fn legacy_description() {
    let chat = ChatComponent::Legacy("A Server".to_string());
    assert_eq!(render_chat(&chat).unwrap(), format!("A Server{RESET}"));
}

#[test]
fn modern_description_with_codes_and_no_parts_is_rendered_as_legacy() {
    let chat = ChatComponent::Modern { text: "§cHi\n§rthere".to_string(), extra: None };
    assert_eq!(
        render_chat(&chat).unwrap(),
        format!(" {RESET}\u{1b}[38;2;255;85;85mHi{RESET} \n{RESET}there{RESET}")
    );
}

#[test]
fn other_modern_descriptions_show_their_text() {
    let plain = ChatComponent::Modern { text: "Hello".to_string(), extra: None };
    assert_eq!(render_chat(&plain).unwrap(), "Hello");
    let parts = ChatComponent::Modern {
        text: "§cHello".to_string(),
        extra: Some(vec![SubComponent { text: " World".to_string(), color: None }]),
    };
    assert_eq!(render_chat(&parts).unwrap(), "§cHello");
}
