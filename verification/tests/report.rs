use server_list_ping::chat::ChatComponent;
use server_list_ping::decode::decode_status;
use server_list_ping::error::{Error, RenderFault};
use server_list_ping::report::{compose, players_line, report, words, Tone, Toned, Word};
use server_list_ping::status::{ModInfo, Player, Players, StatusResponse, Version};

fn status(sample: Option<Vec<Player>>) -> StatusResponse {
    StatusResponse {
        version: Version { name: "1.20".to_string(), protocol: 763 },
        players: Players { max: 20, online: 3, sample },
        description: ChatComponent::Legacy("A Server".to_string()),
        favicon: None,
        previews_chat: None,
        enforces_secure_chat: None,
        mod_info: None,
    }
}

fn players(names: &[&str]) -> Players {
    let list = names.iter().map(|n| Player { name: n.to_string(), id: 0 }).collect();
    Players { max: 20, online: names.len() as u32, sample: Some(list) }
}

fn toned() -> Toned {
    Toned {
        version: "<1.20>".to_string(),
        protocol: "<763>".to_string(),
        nobody: "<nobody>".to_string(),
        favicon: "<none>".to_string(),
        preview: "<preview>".to_string(),
        secure: "<secure>".to_string(),
    }
}

#[test]
fn up_to_three_players_are_named() {
    assert_eq!(players_line(&players(&["a"]), "-"), "a");
    assert_eq!(players_line(&players(&["a", "b"]), "-"), "a, b");
    assert_eq!(players_line(&players(&["a", "b", "c"]), "-"), "a, b, c");
}

#[test]
fn more_than_three_players_end_in_etc() {
    assert_eq!(players_line(&players(&["a", "b", "c", "d"]), "-"), "a, b, c, etc");
    assert_eq!(players_line(&players(&["a", "b", "c", "d", "e"]), "-"), "a, b, c, etc");
}

#[test]
fn no_players_to_name() {
    assert_eq!(players_line(&players(&[]), "nobody"), "nobody");
    assert_eq!(players_line(&Players { max: 1, online: 1, sample: None }, "nobody"), "nobody");
}

#[test]
fn report_is_set_line_by_line() {
    let text = compose(&status(Some(vec![])), "A Server", &toned());
    assert_eq!(
        text,
        "A Server\n\n<1.20> (protocol ver. <763>)\n<nobody> are participating now (3 / 20 players)\n\n  favicon             - <none>\n  chat preview        - <preview>\n  enforce secure chat - <secure>\n\n  modding - none\n"
    );
}

#[test]
fn report_names_the_mods() {
    let mut modded = status(Some(players(&["a", "b"]).sample.unwrap()));
    modded.mod_info =
        Some(ModInfo { kind: "FML".to_string(), mod_list: vec!["x".to_string(); 12] });
    let text = compose(&modded, "d", &toned());
    assert_eq!(
        text,
        "d\n\n<1.20> (protocol ver. <763>)\na, b are participating now (3 / 20 players)\n\n  favicon             - <none>\n  chat preview        - <preview>\n  enforce secure chat - <secure>\n\n  modding - found\n  type    - FML\n  mods    - 12 installed\n"
    );
}

#[test]
fn report_without_colours() {
    colored::control::set_override(false);
    let text = "{\"version\":{\"name\":\"1.20\",\"protocol\":763},\"players\":{\"max\":20,\"online\":3,\"sample\":[]},\"description\":\"A Server\",\"favicon\":\"data:image/png;base64,AQID\",\"previewsChat\":true,\"enforcesSecureChat\":false}";
    let status = decode_status(text).unwrap();
    assert_eq!(
        report(&status).unwrap(),
        "A Server\u{1b}[0m\n\n1.20 (protocol ver. 763)\n*nothing to show* are participating now (3 / 20 players)\n\n  favicon             - found\n  chat preview        - available\n  enforce secure chat - no\n\n  modding - none\n"
    );
}

#[test]
fn report_fails_with_the_renderer() {
    let mut bad = status(None);
    bad.description = ChatComponent::Legacy("§k".to_string());
    assert_eq!(report(&bad), Err(Error::UnsupportedRender(RenderFault::ObfuscatedStyle)));
}

fn word(text: &str, tone: Tone) -> Word {
    Word { text: text.to_string(), tone }
}

#[test]
fn words_and_their_tones() {
    let mut plain = status(None);
    plain.version.protocol = -1;
    let chosen = words(&plain);
    assert_eq!(chosen.version, word("1.20", Tone::Cyan));
    assert_eq!(chosen.protocol, word("-1", Tone::Magenta));
    assert_eq!(chosen.nobody, word("*nothing to show*", Tone::Dimmed));
    assert_eq!(chosen.favicon, word("none", Tone::Dimmed));
    assert_eq!(chosen.preview, word("unsupported", Tone::Dimmed));
    assert_eq!(chosen.secure, word("unsupported", Tone::Dimmed));
}

#[test]
fn words_for_flags_that_are_set_or_not() {
    let text = "{\"version\":{\"name\":\"x\",\"protocol\":5},\"players\":{\"max\":1,\"online\":0},\"description\":\"d\",\"favicon\":\"data:image/png;base64,AQID\",\"previewsChat\":false,\"enforcesSecureChat\":true}";
    let chosen = words(&decode_status(text).unwrap());
    assert_eq!(chosen.favicon, word("found", Tone::Green));
    assert_eq!(chosen.preview, word("unavailable", Tone::Red));
    assert_eq!(chosen.secure, word("yes", Tone::Green));
    let other = text.replace("false", "true").replace("Chat\":true}", "Chat\":false}");
    let chosen = words(&decode_status(&other).unwrap());
    assert_eq!(chosen.preview, word("available", Tone::Green));
    assert_eq!(chosen.secure, word("no", Tone::Red));
}

#[test]
fn report_with_colours_forced() {
    colored::control::set_override(true);
    let text = report(&status(None)).unwrap();
    colored::control::unset_override();
    assert_eq!(
        text,
        "A Server\u{1b}[0m\n\n\u{1b}[36m1.20\u{1b}[0m (protocol ver. \u{1b}[35m763\u{1b}[0m)\n\u{1b}[2m*nothing to show*\u{1b}[0m are participating now (3 / 20 players)\n\n  favicon             - \u{1b}[2mnone\u{1b}[0m\n  chat preview        - \u{1b}[2munsupported\u{1b}[0m\n  enforce secure chat - \u{1b}[2munsupported\u{1b}[0m\n\n  modding - none\n"
    );
}

#[test]
fn report_shows_flags_in_green_and_red() {
    let text = "{\"version\":{\"name\":\"x\",\"protocol\":5},\"players\":{\"max\":1,\"online\":0},\"description\":\"d\",\"favicon\":\"data:image/png;base64,AQID\",\"previewsChat\":false,\"enforcesSecureChat\":true}";
    let status = decode_status(text).unwrap();
    colored::control::set_override(true);
    let shown = report(&status).unwrap();
    colored::control::unset_override();
    assert_eq!(
        shown,
        "d\u{1b}[0m\n\n\u{1b}[36mx\u{1b}[0m (protocol ver. \u{1b}[35m5\u{1b}[0m)\n\u{1b}[2m*nothing to show*\u{1b}[0m are participating now (0 / 1 players)\n\n  favicon             - \u{1b}[32mfound\u{1b}[0m\n  chat preview        - \u{1b}[31munavailable\u{1b}[0m\n  enforce secure chat - \u{1b}[32myes\u{1b}[0m\n\n  modding - none\n"
    );
}
