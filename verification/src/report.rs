//! A status response as text for a terminal: the description, the
//! version, the players, and what else the server said of itself.

use vstd::prelude::*;
use vstd::string::StringExecFns;
use crate::chat::{render_chat, spec_render_chat};
use crate::error::Error;
use crate::status::{Listing, ModInfo, Player, Players, StatusResponse};
use crate::text::{decimal, signed_decimal, spec_decimal, spec_signed_decimal};

verus! {

/// The most players that a report names.
pub const NAMED_PLAYERS: usize = 3;

/// The tones that set words of a report off.
#[derive(Debug, Clone, Copy, PartialEq, Eq, Structural)]
pub enum Tone {
    Cyan,
    Magenta,
    Dimmed,
    Green,
    Red,
}

/// A word of a report and the tone it is shown in.
#[derive(Debug, Clone, PartialEq, Eq)]
pub struct Word {
    pub text: String,
    pub tone: Tone,
}

impl View for Word {
    type V = (Seq<char>, Tone);

    open spec fn view(&self) -> (Seq<char>, Tone) {
        (self.text@, self.tone)
    }
}

/// The words of a report that are shown in a tone of their own.
#[derive(Debug, Clone, PartialEq, Eq)]
pub struct Words {
    /// The name of the version.
    pub version: Word,
    /// The number of the protocol.
    pub protocol: Word,
    /// What stands for the players where none can be named.
    pub nobody: Word,
    /// Whether there is a favicon.
    pub favicon: Word,
    /// Whether the server previews chat.
    pub preview: Word,
    /// Whether the server enforces secure chat.
    pub secure: Word,
}

/// The word for a flag: `yes` in green where it is set, `no` in red
/// where it is not, and `unsupported`, dimmed, where nothing was said.
pub open spec fn spec_flag_word(flag: Option<bool>, yes: Seq<char>, no: Seq<char>) -> (
    Seq<char>,
    Tone,
) {
    match flag {
        Some(true) => (yes, Tone::Green),
        Some(false) => (no, Tone::Red),
        None => ("unsupported"@, Tone::Dimmed),
    }
}

/// The words of a report that are shown in a tone of their own, as the
/// terminal is to show them.
#[derive(Debug, Clone, PartialEq, Eq)]
pub struct Toned {
    /// The name of the version.
    pub version: String,
    /// The number of the protocol.
    pub protocol: String,
    /// What stands for the players where none can be named.
    pub nobody: String,
    /// Whether there is a favicon.
    pub favicon: String,
    /// Whether the server previews chat.
    pub preview: String,
    /// Whether the server enforces secure chat.
    pub secure: String,
}

/// The first `count` names of `list`, with a comma and a space between
/// each two.
pub open spec fn spec_names(list: Seq<Player>, count: nat) -> Seq<char>
    decreases count,
{
    if count == 0 {
        Seq::<char>::empty()
    } else if count == 1 {
        list[0].name@
    } else {
        spec_names(list, (count - 1) as nat) + ", "@ + list[count - 1].name@
    }
}

/// Who is there: the names of up to three of the players listed, `etc`
/// after them where more are listed, and `nobody` where none is listed,
/// be it that nobody is there or that the server keeps no list.
pub open spec fn spec_players(players: Players, nobody: Seq<char>) -> Seq<char> {
    match players.spec_listing() {
        Listing::Unsupported => nobody,
        Listing::Nobody => nobody,
        Listing::Listed(count) => if count <= NAMED_PLAYERS {
            spec_names(players.sample->0@, count as nat)
        } else {
            spec_names(players.sample->0@, NAMED_PLAYERS as nat) + ", etc"@
        },
    }
}

/// What a report says of the mods.
pub open spec fn spec_modding(mod_info: Option<ModInfo>) -> Seq<char> {
    match mod_info {
        Some(info) => "found\n  type    - "@ + info.kind@ + "\n  mods    - "@ + spec_decimal(
            info.mod_list@.len(),
        ) + " installed\n"@,
        None => "none\n"@,
    }
}

/// The report on `status`, with `description` for its rendered
/// description and `toned` for the words in tones.
pub open spec fn spec_report(
    status: StatusResponse,
    description: Seq<char>,
    toned: Toned,
) -> Seq<char> {
    description + "\n\n"@ + toned.version@ + " (protocol ver. "@ + toned.protocol@ + ")\n"@
        + spec_players(status.players, toned.nobody@) + " are participating now ("@
        + spec_decimal(status.players.online as nat) + " / "@ + spec_decimal(
        status.players.max as nat,
    ) + " players)\n\n"@ + "  favicon             - "@ + toned.favicon@ + "\n"@
        + "  chat preview        - "@ + toned.preview@ + "\n"@ + "  enforce secure chat - "@
        + toned.secure@ + "\n\n"@ + "  modding - "@ + spec_modding(status.mod_info)
}

/// The text of what `cyan` of the colored crate gives for `text` where
/// colored sets colours: the text between the escape sequences of the
/// tone. That colored sets colours depends on the environment of the
/// process; what it then gives for a text does not.
pub uninterp spec fn colored_cyan(text: Seq<char>) -> Seq<char>;

/// The text of what `magenta` of the colored crate gives for `text`
/// where colored sets colours.
pub uninterp spec fn colored_magenta(text: Seq<char>) -> Seq<char>;

/// The text of what `dimmed` of the colored crate gives for `text`
/// where colored sets colours.
pub uninterp spec fn colored_dimmed(text: Seq<char>) -> Seq<char>;

/// The text of what `green` of the colored crate gives for `text` where
/// colored sets colours.
pub uninterp spec fn colored_green(text: Seq<char>) -> Seq<char>;

/// The text of what `red` of the colored crate gives for `text` where
/// colored sets colours.
pub uninterp spec fn colored_red(text: Seq<char>) -> Seq<char>;

/// `text` in `tone`, as colored gives it where it sets colours.
pub open spec fn spec_in_tone(text: Seq<char>, tone: Tone) -> Seq<char> {
    match tone {
        Tone::Cyan => colored_cyan(text),
        Tone::Magenta => colored_magenta(text),
        Tone::Dimmed => colored_dimmed(text),
        Tone::Green => colored_green(text),
        Tone::Red => colored_red(text),
    }
}

/// Whether `shown` shows `word`: it is the word in its tone, or, where
/// colored sets no colours, the word as it is.
pub open spec fn spec_shows(shown: Seq<char>, word: (Seq<char>, Tone)) -> bool {
    shown == word.0 || shown == spec_in_tone(word.0, word.1)
}

/// Whether there is a favicon, in a word and its tone.
pub open spec fn spec_favicon_word(status: StatusResponse) -> (Seq<char>, Tone) {
    if status.favicon is Some {
        ("found"@, Tone::Green)
    } else {
        ("none"@, Tone::Dimmed)
    }
}

/// Whether `toned` shows the words of the report on `status`, each in
/// the tone that is its own or as it is.
pub open spec fn spec_toned(status: StatusResponse, toned: Toned) -> bool {
    &&& spec_shows(toned.version@, (status.version.name@, Tone::Cyan))
    &&& spec_shows(
        toned.protocol@,
        (spec_signed_decimal(status.version.protocol as int), Tone::Magenta),
    )
    &&& spec_shows(toned.nobody@, ("*nothing to show*"@, Tone::Dimmed))
    &&& spec_shows(toned.favicon@, spec_favicon_word(status))
    &&& spec_shows(
        toned.preview@,
        spec_flag_word(status.previews_chat, "available"@, "unavailable"@),
    )
    &&& spec_shows(toned.secure@, spec_flag_word(status.enforces_secure_chat, "yes"@, "no"@))
}

/// Whether `text` is the report on `status` with `description` for its
/// rendered description, its words in their tones or, where colored
/// sets no colours, as they are.
pub open spec fn spec_reports(status: StatusResponse, description: Seq<char>, text: Seq<char>)
    -> bool {
    exists|toned: Toned|
        spec_toned(status, toned) && text == #[trigger] spec_report(status, description, toned)
}

/// `cyan` of the colored crate's `Colorize`, and the text of what it
/// gives. Whether colored adds escape sequences depends on the
/// environment of the process: the contract says that the result is
/// `text` as it is or what colored makes of it where it sets colours,
/// by the name `colored_cyan`, and claims nothing else.
#[verifier::external_body]
fn paint_cyan(text: &str) -> (out: String)
    ensures
        out@ == text@ || out@ == colored_cyan(text@),
{
    colored::Colorize::cyan(text).to_string()
}

/// `magenta` of the colored crate's `Colorize`, and the text of what it
/// gives: `text` as it is or, by the name `colored_magenta`, what
/// colored makes of it where it sets colours.
#[verifier::external_body]
fn paint_magenta(text: &str) -> (out: String)
    ensures
        out@ == text@ || out@ == colored_magenta(text@),
{
    colored::Colorize::magenta(text).to_string()
}

/// `dimmed` of the colored crate's `Colorize`, and the text of what it
/// gives: `text` as it is or, by the name `colored_dimmed`, what
/// colored makes of it where it sets colours.
#[verifier::external_body]
fn paint_dimmed(text: &str) -> (out: String)
    ensures
        out@ == text@ || out@ == colored_dimmed(text@),
{
    colored::Colorize::dimmed(text).to_string()
}

/// `green` of the colored crate's `Colorize`, and the text of what it
/// gives: `text` as it is or, by the name `colored_green`, what colored
/// makes of it where it sets colours.
#[verifier::external_body]
fn paint_green(text: &str) -> (out: String)
    ensures
        out@ == text@ || out@ == colored_green(text@),
{
    colored::Colorize::green(text).to_string()
}

/// `red` of the colored crate's `Colorize`, and the text of what it
/// gives: `text` as it is or, by the name `colored_red`, what colored
/// makes of it where it sets colours.
#[verifier::external_body]
fn paint_red(text: &str) -> (out: String)
    ensures
        out@ == text@ || out@ == colored_red(text@),
{
    colored::Colorize::red(text).to_string()
}

/// The first `count` names of `list`, with a comma and a space between
/// each two.
fn names(list: &Vec<Player>, count: usize) -> (out: String)
    requires
        count <= list.len(),
    ensures
        out@ == spec_names(list@, count as nat),
{
    let mut out = String::new();
    let mut i: usize = 0;
    while i < count
        invariant
            i <= count <= list.len(),
            out@ == spec_names(list@, i as nat),
        decreases count - i,
    {
        if i > 0 {
            out.append(", ");
        }
        out.append(list[i].name.as_str());
        i += 1;
        assert(out@ =~= spec_names(list@, i as nat));
    }
    out
}

/// Says who is there.
pub fn players_line(players: &Players, nobody: &str) -> (out: String)
    ensures
        out@ == spec_players(*players, nobody@),
{
    match &players.sample {
        Some(list) => match players.listing() {
            Listing::Listed(count) => {
                if count <= NAMED_PLAYERS {
                    names(list, count)
                } else {
                    let mut out = names(list, NAMED_PLAYERS);
                    out.append(", etc");
                    out
                }
            },
            _ => String::from_str(nobody),
        },
        None => String::from_str(nobody),
    }
}

/// Says what there is of mods.
fn modding(mod_info: &Option<ModInfo>) -> (out: String)
    ensures
        out@ == spec_modding(*mod_info),
{
    match mod_info {
        Some(info) => {
            let mut out = String::from_str("found\n  type    - ");
            out.append(info.kind.as_str());
            out.append("\n  mods    - ");
            let count = decimal(info.mod_list.len() as u64);
            out.append(count.as_str());
            out.append(" installed\n");
            out
        },
        None => String::from_str("none\n"),
    }
}

/// Sets the report on `status`, with `description` for its rendered
/// description and `toned` for the words in tones.
pub fn compose(status: &StatusResponse, description: &str, toned: &Toned) -> (out: String)
    ensures
        out@ == spec_report(*status, description@, *toned),
{
    let mut out = String::from_str(description);
    out.append("\n\n");
    out.append(toned.version.as_str());
    out.append(" (protocol ver. ");
    out.append(toned.protocol.as_str());
    out.append(")\n");
    let players = players_line(&status.players, toned.nobody.as_str());
    out.append(players.as_str());
    out.append(" are participating now (");
    let online = decimal(status.players.online as u64);
    out.append(online.as_str());
    out.append(" / ");
    let max = decimal(status.players.max as u64);
    out.append(max.as_str());
    out.append(" players)\n\n");
    out.append("  favicon             - ");
    out.append(toned.favicon.as_str());
    out.append("\n");
    out.append("  chat preview        - ");
    out.append(toned.preview.as_str());
    out.append("\n");
    out.append("  enforce secure chat - ");
    out.append(toned.secure.as_str());
    out.append("\n\n");
    out.append("  modding - ");
    let mods = modding(&status.mod_info);
    out.append(mods.as_str());
    out
}

/// Shows a word in its tone: what comes back is the word in its tone
/// or, where colored sets no colours, the word as it is.
fn paint(word: &Word) -> (shown: String)
    ensures
        spec_shows(shown@, word@),
{
    match word.tone {
        Tone::Cyan => paint_cyan(word.text.as_str()),
        Tone::Magenta => paint_magenta(word.text.as_str()),
        Tone::Dimmed => paint_dimmed(word.text.as_str()),
        Tone::Green => paint_green(word.text.as_str()),
        Tone::Red => paint_red(word.text.as_str()),
    }
}

/// The word for a flag.
fn flag_word(flag: Option<bool>, yes: &str, no: &str) -> (word: Word)
    ensures
        word@ == spec_flag_word(flag, yes@, no@),
{
    match flag {
        Some(true) => Word { text: String::from_str(yes), tone: Tone::Green },
        Some(false) => Word { text: String::from_str(no), tone: Tone::Red },
        None => Word { text: String::from_str("unsupported"), tone: Tone::Dimmed },
    }
}

/// The words of the report on `status` that are shown in a tone of
/// their own, each with its tone.
pub fn words(status: &StatusResponse) -> (words: Words)
    ensures
        words.version@ == (status.version.name@, Tone::Cyan),
        words.protocol@ == (spec_signed_decimal(status.version.protocol as int), Tone::Magenta),
        words.nobody@ == ("*nothing to show*"@, Tone::Dimmed),
        words.favicon@ == spec_favicon_word(*status),
        words.preview@ == spec_flag_word(status.previews_chat, "available"@, "unavailable"@),
        words.secure@ == spec_flag_word(status.enforces_secure_chat, "yes"@, "no"@),
{
    let favicon = match status.favicon {
        Some(_) => Word { text: String::from_str("found"), tone: Tone::Green },
        None => Word { text: String::from_str("none"), tone: Tone::Dimmed },
    };
    Words {
        version: Word { text: status.version.name.clone(), tone: Tone::Cyan },
        protocol: Word {
            text: signed_decimal(status.version.protocol as i64),
            tone: Tone::Magenta,
        },
        nobody: Word { text: String::from_str("*nothing to show*"), tone: Tone::Dimmed },
        favicon,
        preview: flag_word(status.previews_chat, "available", "unavailable"),
        secure: flag_word(status.enforces_secure_chat, "yes", "no"),
    }
}

/// The words of the report on `status` as the terminal is to show
/// them: each in the tone that is its own or, where colored sets no
/// colours, as it is.
fn tones(status: &StatusResponse) -> (toned: Toned)
    ensures
        spec_toned(*status, toned),
{
    let words = words(status);
    Toned {
        version: paint(&words.version),
        protocol: paint(&words.protocol),
        nobody: paint(&words.nobody),
        favicon: paint(&words.favicon),
        preview: paint(&words.preview),
        secure: paint(&words.secure),
    }
}

/// Reports on `status`: the rendered description, then line by line
/// what the server said of itself, the words that have a tone in their
/// tones. Fails only where the description cannot be rendered, and with
/// the renderer's failure.
pub fn report(status: &StatusResponse) -> (res: Result<String, Error>)
    ensures
        match spec_render_chat(status.description) {
            Err(e) => res == Err::<String, Error>(e),
            Ok(description) => res matches Ok(out) && spec_reports(*status, description, out@),
        },
{
    let description = match render_chat(&status.description) {
        Ok(description) => description,
        Err(e) => { return Err(e); },
    };
    let toned = tones(status);
    let out = compose(status, description.as_str(), &toned);
    assert(spec_toned(*status, toned) && out@ == spec_report(*status, description@, toned));
    Ok(out)
}

} // verus!
