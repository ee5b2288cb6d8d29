//! Reading a status out of the JSON text of a status response.
//!
//! A status must say its version and its players and describe itself;
//! of everything else it may say nothing. A part that is there must
//! have the shape it is known by, and what a status holds beside the
//! parts known here is passed over.

use vstd::prelude::*;
use vstd::string::StringExecFns;
use crate::chat::{ChatComponent, SubComponent};
use crate::error::{DecodeFault, Error};
use crate::favicon::spec_decode_favicon;
use crate::json::{json_contents, json_document, json_node, json_parse, spec_node, Found, Node};
use crate::status::{ModInfo, Player, Players, StatusResponse, Version};
use crate::text::{decimal, spec_decimal};

verus! {

/// What a document holds, by JSON Pointer.
pub type Contents = Map<Seq<char>, Node>;

/// The lists of a status.
pub enum Items {
    /// The players listed.
    Players,
    /// The parts of a structured description.
    Parts,
    /// The names of the mods.
    Mods,
}

/// A field is missing.
pub open spec fn spec_missing() -> Error {
    Error::Decode(DecodeFault::MissingField)
}

/// A field has another shape.
pub open spec fn spec_misshapen() -> Error {
    Error::Decode(DecodeFault::UnexpectedShape)
}

/// What the UUID that `parse_str` of the uuid crate reads from `text`
/// gives as `as_u128`; `None` where `parse_str` refuses `text`.
pub uninterp spec fn uuid_value(text: Seq<char>) -> Option<u128>;

/// The failure of a result, if it is one.
pub open spec fn spec_fault<T>(r: Result<T, Error>) -> Option<Error> {
    match r {
        Ok(_) => None,
        Err(e) => Some(e),
    }
}

/// The first of two failures.
pub open spec fn spec_or(first: Option<Error>, second: Option<Error>) -> Option<Error> {
    if first is Some {
        first
    } else {
        second
    }
}

/// A text that must be there.
pub open spec fn spec_required_text(doc: Contents, pointer: Seq<char>) -> Result<Seq<char>, Error> {
    match spec_node(doc, pointer) {
        None => Err(spec_missing()),
        Some(Node::Text(text)) => Ok(text),
        Some(_) => Err(spec_misshapen()),
    }
}

/// A text that may be left out, or be null.
pub open spec fn spec_optional_text(doc: Contents, pointer: Seq<char>) -> Result<
    Option<Seq<char>>,
    Error,
> {
    match spec_node(doc, pointer) {
        None => Ok(None),
        Some(Node::Null) => Ok(None),
        Some(Node::Text(text)) => Ok(Some(text)),
        Some(_) => Err(spec_misshapen()),
    }
}

/// A flag that may be left out, or be null.
pub open spec fn spec_optional_flag(doc: Contents, pointer: Seq<char>) -> Result<
    Option<bool>,
    Error,
> {
    match spec_node(doc, pointer) {
        None => Ok(None),
        Some(Node::Null) => Ok(None),
        Some(Node::Bool(flag)) => Ok(Some(flag)),
        Some(_) => Err(spec_misshapen()),
    }
}

/// An integer that must be there, and within `low` and `high`.
pub open spec fn spec_required_integer(doc: Contents, pointer: Seq<char>, low: int, high: int)
    -> Result<int, Error> {
    match spec_node(doc, pointer) {
        None => Err(spec_missing()),
        Some(Node::Integer(i)) => if low <= i <= high {
            Ok(i as int)
        } else {
            Err(spec_misshapen())
        },
        Some(_) => Err(spec_misshapen()),
    }
}

/// The length of a list that must be there.
pub open spec fn spec_required_list(doc: Contents, pointer: Seq<char>) -> Result<nat, Error> {
    match spec_node(doc, pointer) {
        None => Err(spec_missing()),
        Some(Node::List(count)) => Ok(count),
        Some(_) => Err(spec_misshapen()),
    }
}

/// The length of a list that may be left out, or be null.
pub open spec fn spec_optional_list(doc: Contents, pointer: Seq<char>) -> Result<
    Option<nat>,
    Error,
> {
    match spec_node(doc, pointer) {
        None => Ok(None),
        Some(Node::Null) => Ok(None),
        Some(Node::List(count)) => Ok(Some(count)),
        Some(_) => Err(spec_misshapen()),
    }
}

/// The pointer to `field` of entry `index` of the list at `list`.
pub open spec fn spec_entry(list: Seq<char>, index: nat, field: Seq<char>) -> Seq<char> {
    list + "/"@ + spec_decimal(index) + field
}

/// The name of a listed player.
pub open spec fn spec_player_name(doc: Contents, index: nat) -> Result<Seq<char>, Error> {
    spec_required_text(doc, spec_entry("/players/sample"@, index, "/name"@))
}

/// The UUID of a listed player.
pub open spec fn spec_player_id(doc: Contents, index: nat) -> Result<u128, Error> {
    match spec_required_text(doc, spec_entry("/players/sample"@, index, "/id"@)) {
        Err(e) => Err(e),
        Ok(text) => match uuid_value(text) {
            Some(id) => Ok(id),
            None => Err(spec_misshapen()),
        },
    }
}

/// The text of a part of a structured description.
pub open spec fn spec_part_text(doc: Contents, index: nat) -> Result<Seq<char>, Error> {
    spec_required_text(doc, spec_entry("/description/extra"@, index, "/text"@))
}

/// The colour of a part of a structured description.
pub open spec fn spec_part_color(doc: Contents, index: nat) -> Result<Option<Seq<char>>, Error> {
    spec_optional_text(doc, spec_entry("/description/extra"@, index, "/color"@))
}

/// The name of a mod.
pub open spec fn spec_mod_name(doc: Contents, index: nat) -> Result<Seq<char>, Error> {
    spec_required_text(doc, spec_entry("/modinfo/modList"@, index, ""@))
}

/// What is wrong with one entry of a list, if anything.
pub open spec fn spec_entry_fault(doc: Contents, items: Items, index: nat) -> Option<Error> {
    match items {
        Items::Players => spec_or(
            spec_fault(spec_player_name(doc, index)),
            spec_fault(spec_player_id(doc, index)),
        ),
        Items::Parts => spec_or(
            spec_fault(spec_part_text(doc, index)),
            spec_fault(spec_part_color(doc, index)),
        ),
        Items::Mods => spec_fault(spec_mod_name(doc, index)),
    }
}

/// What is wrong with the first entry, among the first `count`, with
/// which something is wrong.
pub open spec fn spec_entries_fault(doc: Contents, items: Items, count: nat) -> Option<Error>
    decreases count,
{
    if count == 0 {
        None
    } else {
        spec_or(
            spec_entries_fault(doc, items, (count - 1) as nat),
            spec_entry_fault(doc, items, (count - 1) as nat),
        )
    }
}

/// Whether `player` is entry `index` of the players listed.
pub open spec fn spec_is_player(doc: Contents, index: nat, player: Player) -> bool {
    &&& spec_player_name(doc, index) == Ok::<Seq<char>, Error>(player.name@)
    &&& spec_player_id(doc, index) == Ok::<u128, Error>(player.id)
}

/// Whether `part` is entry `index` of the parts of the description.
pub open spec fn spec_is_part(doc: Contents, index: nat, part: SubComponent) -> bool {
    &&& spec_part_text(doc, index) == Ok::<Seq<char>, Error>(part.text@)
    &&& spec_part_color(doc, index) == Ok::<Option<Seq<char>>, Error>(
        crate::favicon::spec_text(part.color),
    )
}

/// Whether `sample` is what the document says of the players listed:
/// `None` for no list, otherwise the list, entry by entry.
pub open spec fn spec_is_sample(doc: Contents, sample: Option<Vec<Player>>) -> bool {
    match sample {
        None => spec_optional_list(doc, "/players/sample"@) == Ok::<Option<nat>, Error>(None),
        Some(list) => {
            &&& spec_optional_list(doc, "/players/sample"@) == Ok::<Option<nat>, Error>(
                Some(list@.len()),
            )
            &&& forall|i: int|
                0 <= i < list@.len() ==> spec_is_player(doc, i as nat, #[trigger] list@[i])
        },
    }
}

/// What is wrong with the players listed, if anything.
pub open spec fn spec_sample_fault(doc: Contents) -> Option<Error> {
    match spec_optional_list(doc, "/players/sample"@) {
        Err(e) => Some(e),
        Ok(None) => None,
        Ok(Some(count)) => spec_entries_fault(doc, Items::Players, count),
    }
}

/// Whether `chat` is the description in the document: text with inline
/// codes where the document holds a text there, a structured component
/// where it holds an object.
pub open spec fn spec_is_description(doc: Contents, chat: ChatComponent) -> bool {
    match chat {
        ChatComponent::Legacy(text) => spec_node(doc, "/description"@) == Some(
            Node::Text(text@),
        ),
        ChatComponent::Modern { text, extra } => {
            &&& spec_node(doc, "/description"@) == Some(Node::Object)
            &&& spec_required_text(doc, "/description/text"@) == Ok::<Seq<char>, Error>(text@)
            &&& match extra {
                None => spec_optional_list(doc, "/description/extra"@) == Ok::<
                    Option<nat>,
                    Error,
                >(None),
                Some(list) => {
                    &&& spec_optional_list(doc, "/description/extra"@) == Ok::<
                        Option<nat>,
                        Error,
                    >(Some(list@.len()))
                    &&& forall|i: int|
                        0 <= i < list@.len() ==> spec_is_part(doc, i as nat, #[trigger] list@[i])
                },
            }
        },
    }
}

/// What is wrong with the description, if anything.
pub open spec fn spec_description_fault(doc: Contents) -> Option<Error> {
    match spec_node(doc, "/description"@) {
        None => Some(spec_missing()),
        Some(Node::Text(_)) => None,
        Some(Node::Object) => spec_or(
            spec_fault(spec_required_text(doc, "/description/text"@)),
            match spec_optional_list(doc, "/description/extra"@) {
                Err(e) => Some(e),
                Ok(None) => None,
                Ok(Some(count)) => spec_entries_fault(doc, Items::Parts, count),
            },
        ),
        Some(_) => Some(spec_misshapen()),
    }
}

/// Whether `info` is what the document says of mods.
pub open spec fn spec_is_mod_info(doc: Contents, info: Option<ModInfo>) -> bool {
    match info {
        None => spec_node(doc, "/modinfo"@) is None || spec_node(doc, "/modinfo"@) == Some(
            Node::Null,
        ),
        Some(info) => {
            &&& spec_node(doc, "/modinfo"@) == Some(Node::Object)
            &&& spec_required_text(doc, "/modinfo/type"@) == Ok::<Seq<char>, Error>(info.kind@)
            &&& spec_required_list(doc, "/modinfo/modList"@) == Ok::<nat, Error>(
                info.mod_list@.len(),
            )
            &&& forall|i: int|
                0 <= i < info.mod_list@.len() ==> spec_mod_name(doc, i as nat) == Ok::<
                    Seq<char>,
                    Error,
                >((#[trigger] info.mod_list@[i])@)
        },
    }
}

/// What is wrong with what the document says of mods, if anything.
pub open spec fn spec_mod_info_fault(doc: Contents) -> Option<Error> {
    match spec_node(doc, "/modinfo"@) {
        None => None,
        Some(Node::Null) => None,
        Some(Node::Object) => spec_or(
            spec_fault(spec_required_text(doc, "/modinfo/type"@)),
            match spec_required_list(doc, "/modinfo/modList"@) {
                Err(e) => Some(e),
                Ok(count) => spec_entries_fault(doc, Items::Mods, count),
            },
        ),
        Some(_) => Some(spec_misshapen()),
    }
}

/// What is wrong with the favicon, if anything.
pub open spec fn spec_favicon_fault(doc: Contents) -> Option<Error> {
    match spec_optional_text(doc, "/favicon"@) {
        Err(e) => Some(e),
        Ok(None) => None,
        Ok(Some(uri)) => spec_fault(spec_decode_favicon(uri)),
    }
}

/// Whether `favicon` is the favicon in the document.
pub open spec fn spec_is_favicon(doc: Contents, favicon: Option<crate::favicon::Favicon>) -> bool {
    match spec_optional_text(doc, "/favicon"@) {
        Err(_) => false,
        Ok(None) => favicon is None,
        Ok(Some(uri)) => favicon matches Some(image) && spec_decode_favicon(uri) == Ok::<
            Seq<u8>,
            Error,
        >(image@),
    }
}

/// The first thing that is wrong with a document as a status, if
/// anything is. The parts are looked at in a fixed order: version,
/// players, description, favicon, the two flags on chat, mods.
pub open spec fn spec_status_fault(doc: Contents) -> Option<Error> {
    spec_or(
        spec_fault(spec_required_text(doc, "/version/name"@)),
        spec_or(
            spec_fault(
                spec_required_integer(doc, "/version/protocol"@, i32::MIN as int, i32::MAX as int),
            ),
            spec_or(
                spec_fault(spec_required_integer(doc, "/players/max"@, 0, u32::MAX as int)),
                spec_or(
                    spec_fault(spec_required_integer(doc, "/players/online"@, 0, u32::MAX as int)),
                    spec_or(
                        spec_sample_fault(doc),
                        spec_or(
                            spec_description_fault(doc),
                            spec_or(
                                spec_favicon_fault(doc),
                                spec_or(
                                    spec_fault(spec_optional_flag(doc, "/previewsChat"@)),
                                    spec_or(
                                        spec_fault(
                                            spec_optional_flag(doc, "/enforcesSecureChat"@),
                                        ),
                                        spec_mod_info_fault(doc),
                                    ),
                                ),
                            ),
                        ),
                    ),
                ),
            ),
        ),
    )
}

/// Whether `status` is the status that the document holds, part by part.
pub open spec fn spec_is_status(doc: Contents, status: StatusResponse) -> bool {
    &&& spec_required_text(doc, "/version/name"@) == Ok::<Seq<char>, Error>(status.version.name@)
    &&& spec_required_integer(doc, "/version/protocol"@, i32::MIN as int, i32::MAX as int) == Ok::<
        int,
        Error,
    >(status.version.protocol as int)
    &&& spec_required_integer(doc, "/players/max"@, 0, u32::MAX as int) == Ok::<int, Error>(
        status.players.max as int,
    )
    &&& spec_required_integer(doc, "/players/online"@, 0, u32::MAX as int) == Ok::<int, Error>(
        status.players.online as int,
    )
    &&& spec_is_sample(doc, status.players.sample)
    &&& spec_is_description(doc, status.description)
    &&& spec_is_favicon(doc, status.favicon)
    &&& spec_optional_flag(doc, "/previewsChat"@) == Ok::<Option<bool>, Error>(
        status.previews_chat,
    )
    &&& spec_optional_flag(doc, "/enforcesSecureChat"@) == Ok::<Option<bool>, Error>(
        status.enforces_secure_chat,
    )
    &&& spec_is_mod_info(doc, status.mod_info)
}

/// What the text of a status response fails with as a status, if it
/// fails: it is no JSON, or something is wrong with the document.
pub open spec fn spec_decode_fault(text: Seq<char>) -> Option<Error> {
    match json_document(text) {
        None => Some(Error::Decode(DecodeFault::InvalidJson)),
        Some(doc) => spec_status_fault(doc),
    }
}

/// Whether `status` is the status that the text of a status response holds.
pub open spec fn spec_decodes(text: Seq<char>, status: StatusResponse) -> bool {
    json_document(text) matches Some(doc) && spec_is_status(doc, status)
}

/// Once something is wrong with an entry, it is what is wrong with the
/// list, unless something was wrong before.
proof fn lemma_entries_fault(doc: Contents, items: Items, clean: nat, count: nat)
    requires
        clean < count,
        spec_entries_fault(doc, items, clean) is None,
        spec_entry_fault(doc, items, clean) is Some,
    ensures
        spec_entries_fault(doc, items, count) == spec_entry_fault(doc, items, clean),
    decreases count,
{
    if count > clean + 1 {
        lemma_entries_fault(doc, items, clean, (count - 1) as nat);
    }
}

/// `parse_str` of the uuid crate, and `as_u128` of the UUID it gives.
/// The contract gives the result the name `uuid_value`, `None` standing
/// for a text that `parse_str` refused; it claims nothing else.
#[verifier::external_body]
fn uuid_parse(text: &str) -> (res: Option<u128>)
    ensures
        res == uuid_value(text@),
{
    uuid::Uuid::parse_str(text).ok().map(|id| id.as_u128())
}

/// Reads a text that must be there.
fn required_text(doc: &serde_json::Value, pointer: &str) -> (res: Result<String, Error>)
    ensures
        match res {
            Ok(text) => spec_required_text(json_contents(*doc), pointer@) == Ok::<
                Seq<char>,
                Error,
            >(text@),
            Err(e) => spec_required_text(json_contents(*doc), pointer@) == Err::<Seq<char>, Error>(
                e,
            ),
        },
{
    match json_node(doc, pointer) {
        Found::Absent => Err(Error::Decode(DecodeFault::MissingField)),
        Found::Text(text) => Ok(text),
        _ => Err(Error::Decode(DecodeFault::UnexpectedShape)),
    }
}

/// Reads a text that may be left out.
fn optional_text(doc: &serde_json::Value, pointer: &str) -> (res: Result<Option<String>, Error>)
    ensures
        match res {
            Ok(text) => spec_optional_text(json_contents(*doc), pointer@) == Ok::<
                Option<Seq<char>>,
                Error,
            >(crate::favicon::spec_text(text)),
            Err(e) => spec_optional_text(json_contents(*doc), pointer@) == Err::<
                Option<Seq<char>>,
                Error,
            >(e),
        },
{
    match json_node(doc, pointer) {
        Found::Absent => Ok(None),
        Found::Null => Ok(None),
        Found::Text(text) => Ok(Some(text)),
        _ => Err(Error::Decode(DecodeFault::UnexpectedShape)),
    }
}

/// Reads a flag that may be left out.
fn optional_flag(doc: &serde_json::Value, pointer: &str) -> (res: Result<Option<bool>, Error>)
    ensures
        res == spec_optional_flag(json_contents(*doc), pointer@),
{
    match json_node(doc, pointer) {
        Found::Absent => Ok(None),
        Found::Null => Ok(None),
        Found::Bool(flag) => Ok(Some(flag)),
        _ => Err(Error::Decode(DecodeFault::UnexpectedShape)),
    }
}

/// Reads an integer that must be there, and within `low` and `high`.
fn required_integer(doc: &serde_json::Value, pointer: &str, low: i64, high: i64) -> (res: Result<
    i64,
    Error,
>)
    ensures
        match res {
            Ok(i) => low <= i <= high && spec_required_integer(
                json_contents(*doc),
                pointer@,
                low as int,
                high as int,
            ) == Ok::<int, Error>(i as int),
            Err(e) => spec_required_integer(
                json_contents(*doc),
                pointer@,
                low as int,
                high as int,
            ) == Err::<int, Error>(e),
        },
{
    match json_node(doc, pointer) {
        Found::Absent => Err(Error::Decode(DecodeFault::MissingField)),
        Found::Integer(i) => if low <= i && i <= high {
            Ok(i)
        } else {
            Err(Error::Decode(DecodeFault::UnexpectedShape))
        },
        _ => Err(Error::Decode(DecodeFault::UnexpectedShape)),
    }
}

/// Reads the length of a list that must be there.
fn required_list(doc: &serde_json::Value, pointer: &str) -> (res: Result<usize, Error>)
    ensures
        match res {
            Ok(count) => spec_required_list(json_contents(*doc), pointer@) == Ok::<nat, Error>(
                count as nat,
            ),
            Err(e) => spec_required_list(json_contents(*doc), pointer@) == Err::<nat, Error>(e),
        },
{
    match json_node(doc, pointer) {
        Found::Absent => Err(Error::Decode(DecodeFault::MissingField)),
        Found::List(count) => Ok(count),
        _ => Err(Error::Decode(DecodeFault::UnexpectedShape)),
    }
}

/// Reads the length of a list that may be left out.
fn optional_list(doc: &serde_json::Value, pointer: &str) -> (res: Result<Option<usize>, Error>)
    ensures
        match res {
            Ok(Some(count)) => spec_optional_list(json_contents(*doc), pointer@) == Ok::<
                Option<nat>,
                Error,
            >(Some(count as nat)),
            Ok(None) => spec_optional_list(json_contents(*doc), pointer@) == Ok::<
                Option<nat>,
                Error,
            >(None),
            Err(e) => spec_optional_list(json_contents(*doc), pointer@) == Err::<
                Option<nat>,
                Error,
            >(e),
        },
{
    match json_node(doc, pointer) {
        Found::Absent => Ok(None),
        Found::Null => Ok(None),
        Found::List(count) => Ok(Some(count)),
        _ => Err(Error::Decode(DecodeFault::UnexpectedShape)),
    }
}

/// The pointer to `field` of entry `index` of the list at `list`.
fn entry(list: &str, index: usize, field: &str) -> (pointer: String)
    ensures
        pointer@ == spec_entry(list@, index as nat, field@),
{
    let mut pointer = String::from_str(list);
    pointer.append("/");
    let digits = decimal(index as u64);
    pointer.append(digits.as_str());
    pointer.append(field);
    pointer
}

/// Reads one of the players listed.
fn player(doc: &serde_json::Value, index: usize) -> (res: Result<Player, Error>)
    ensures
        match res {
            Ok(p) => spec_is_player(json_contents(*doc), index as nat, p) && spec_entry_fault(
                json_contents(*doc),
                Items::Players,
                index as nat,
            ) is None,
            Err(e) => spec_entry_fault(json_contents(*doc), Items::Players, index as nat) == Some(
                e,
            ),
        },
{
    let name_at = entry("/players/sample", index, "/name");
    let name = match required_text(doc, name_at.as_str()) {
        Ok(name) => name,
        Err(e) => { return Err(e); },
    };
    let id_at = entry("/players/sample", index, "/id");
    let id_text = match required_text(doc, id_at.as_str()) {
        Ok(text) => text,
        Err(e) => { return Err(e); },
    };
    match uuid_parse(id_text.as_str()) {
        Some(id) => Ok(Player { name, id }),
        None => Err(Error::Decode(DecodeFault::UnexpectedShape)),
    }
}

/// Reads the players listed, if the document lists any.
fn sample(doc: &serde_json::Value) -> (res: Result<Option<Vec<Player>>, Error>)
    ensures
        match res {
            Ok(sample) => spec_is_sample(json_contents(*doc), sample) && spec_sample_fault(
                json_contents(*doc),
            ) is None,
            Err(e) => spec_sample_fault(json_contents(*doc)) == Some(e),
        },
{
    let count = match optional_list(doc, "/players/sample") {
        Ok(Some(count)) => count,
        Ok(None) => { return Ok(None); },
        Err(e) => { return Err(e); },
    };
    let mut list: Vec<Player> = Vec::new();
    let mut i: usize = 0;
    while i < count
        invariant
            i <= count,
            list@.len() == i,
            spec_optional_list(json_contents(*doc), "/players/sample"@) == Ok::<
                Option<nat>,
                Error,
            >(Some(count as nat)),
            spec_entries_fault(json_contents(*doc), Items::Players, i as nat) is None,
            forall|j: int|
                0 <= j < i ==> spec_is_player(json_contents(*doc), j as nat, #[trigger] list@[j]),
        decreases count - i,
    {
        match player(doc, i) {
            Ok(p) => {
                list.push(p);
            },
            Err(e) => {
                proof {
                    lemma_entries_fault(
                        json_contents(*doc),
                        Items::Players,
                        i as nat,
                        count as nat,
                    );
                }
                return Err(e);
            },
        }
        i += 1;
    }
    Ok(Some(list))
}

/// Reads one part of a structured description.
fn part(doc: &serde_json::Value, index: usize) -> (res: Result<SubComponent, Error>)
    ensures
        match res {
            Ok(p) => spec_is_part(json_contents(*doc), index as nat, p) && spec_entry_fault(
                json_contents(*doc),
                Items::Parts,
                index as nat,
            ) is None,
            Err(e) => spec_entry_fault(json_contents(*doc), Items::Parts, index as nat) == Some(e),
        },
{
    let text_at = entry("/description/extra", index, "/text");
    let text = match required_text(doc, text_at.as_str()) {
        Ok(text) => text,
        Err(e) => { return Err(e); },
    };
    let color_at = entry("/description/extra", index, "/color");
    match optional_text(doc, color_at.as_str()) {
        Ok(color) => Ok(SubComponent { text, color }),
        Err(e) => Err(e),
    }
}

/// Reads the parts of a structured description, if it has any.
fn parts(doc: &serde_json::Value) -> (res: Result<Option<Vec<SubComponent>>, Error>)
    ensures
        match res {
            Ok(None) => spec_optional_list(json_contents(*doc), "/description/extra"@) == Ok::<
                Option<nat>,
                Error,
            >(None),
            Ok(Some(list)) => {
                &&& spec_optional_list(json_contents(*doc), "/description/extra"@) == Ok::<
                    Option<nat>,
                    Error,
                >(Some(list@.len()))
                &&& spec_entries_fault(json_contents(*doc), Items::Parts, list@.len()) is None
                &&& forall|i: int|
                    0 <= i < list@.len() ==> spec_is_part(
                        json_contents(*doc),
                        i as nat,
                        #[trigger] list@[i],
                    )
            },
            Err(e) => match spec_optional_list(json_contents(*doc), "/description/extra"@) {
                Err(f) => e == f,
                Ok(None) => false,
                Ok(Some(count)) => spec_entries_fault(json_contents(*doc), Items::Parts, count)
                    == Some(e),
            },
        },
{
    let count = match optional_list(doc, "/description/extra") {
        Ok(Some(count)) => count,
        Ok(None) => { return Ok(None); },
        Err(e) => { return Err(e); },
    };
    let mut list: Vec<SubComponent> = Vec::new();
    let mut i: usize = 0;
    while i < count
        invariant
            i <= count,
            list@.len() == i,
            spec_optional_list(json_contents(*doc), "/description/extra"@) == Ok::<
                Option<nat>,
                Error,
            >(Some(count as nat)),
            spec_entries_fault(json_contents(*doc), Items::Parts, i as nat) is None,
            forall|j: int|
                0 <= j < i ==> spec_is_part(json_contents(*doc), j as nat, #[trigger] list@[j]),
        decreases count - i,
    {
        match part(doc, i) {
            Ok(p) => {
                list.push(p);
            },
            Err(e) => {
                proof {
                    lemma_entries_fault(json_contents(*doc), Items::Parts, i as nat, count as nat);
                }
                return Err(e);
            },
        }
        i += 1;
    }
    Ok(Some(list))
}

/// Reads the description.
fn description(doc: &serde_json::Value) -> (res: Result<ChatComponent, Error>)
    ensures
        match res {
            Ok(chat) => spec_is_description(json_contents(*doc), chat) && spec_description_fault(
                json_contents(*doc),
            ) is None,
            Err(e) => spec_description_fault(json_contents(*doc)) == Some(e),
        },
{
    match json_node(doc, "/description") {
        Found::Absent => Err(Error::Decode(DecodeFault::MissingField)),
        Found::Text(text) => Ok(ChatComponent::Legacy(text)),
        Found::Object => {
            let text = match required_text(doc, "/description/text") {
                Ok(text) => text,
                Err(e) => { return Err(e); },
            };
            match parts(doc) {
                Ok(extra) => Ok(ChatComponent::Modern { text, extra }),
                Err(e) => Err(e),
            }
        },
        _ => Err(Error::Decode(DecodeFault::UnexpectedShape)),
    }
}

/// Reads the names of the mods.
fn mod_names(doc: &serde_json::Value, count: usize) -> (res: Result<Vec<String>, Error>)
    ensures
        match res {
            Ok(list) => {
                &&& list@.len() == count
                &&& spec_entries_fault(json_contents(*doc), Items::Mods, count as nat) is None
                &&& forall|i: int|
                    0 <= i < list@.len() ==> spec_mod_name(json_contents(*doc), i as nat) == Ok::<
                        Seq<char>,
                        Error,
                    >((#[trigger] list@[i])@)
            },
            Err(e) => spec_entries_fault(json_contents(*doc), Items::Mods, count as nat) == Some(e),
        },
{
    let mut list: Vec<String> = Vec::new();
    let mut i: usize = 0;
    while i < count
        invariant
            i <= count,
            list@.len() == i,
            spec_entries_fault(json_contents(*doc), Items::Mods, i as nat) is None,
            forall|j: int|
                0 <= j < i ==> spec_mod_name(json_contents(*doc), j as nat) == Ok::<
                    Seq<char>,
                    Error,
                >((#[trigger] list@[j])@),
        decreases count - i,
    {
        let at = entry("/modinfo/modList", i, "");
        match required_text(doc, at.as_str()) {
            Ok(name) => {
                list.push(name);
            },
            Err(e) => {
                proof {
                    lemma_entries_fault(json_contents(*doc), Items::Mods, i as nat, count as nat);
                }
                return Err(e);
            },
        }
        i += 1;
    }
    Ok(list)
}

/// Reads what the document says of mods.
fn mod_info(doc: &serde_json::Value) -> (res: Result<Option<ModInfo>, Error>)
    ensures
        match res {
            Ok(info) => spec_is_mod_info(json_contents(*doc), info) && spec_mod_info_fault(
                json_contents(*doc),
            ) is None,
            Err(e) => spec_mod_info_fault(json_contents(*doc)) == Some(e),
        },
{
    match json_node(doc, "/modinfo") {
        Found::Absent => Ok(None),
        Found::Null => Ok(None),
        Found::Object => {
            let kind = match required_text(doc, "/modinfo/type") {
                Ok(kind) => kind,
                Err(e) => { return Err(e); },
            };
            let count = match required_list(doc, "/modinfo/modList") {
                Ok(count) => count,
                Err(e) => { return Err(e); },
            };
            match mod_names(doc, count) {
                Ok(mod_list) => Ok(Some(ModInfo { kind, mod_list })),
                Err(e) => Err(e),
            }
        },
        _ => Err(Error::Decode(DecodeFault::UnexpectedShape)),
    }
}

/// Reads a status out of a document.
pub fn status_of(doc: &serde_json::Value) -> (res: Result<StatusResponse, Error>)
    ensures
        match res {
            Ok(status) => spec_is_status(json_contents(*doc), status) && spec_status_fault(
                json_contents(*doc),
            ) is None,
            Err(e) => spec_status_fault(json_contents(*doc)) == Some(e),
        },
{
    let name = match required_text(doc, "/version/name") {
        Ok(name) => name,
        Err(e) => { return Err(e); },
    };
    let protocol = match required_integer(doc, "/version/protocol", i32::MIN as i64, i32::MAX as i64) {
        Ok(protocol) => protocol as i32,
        Err(e) => { return Err(e); },
    };
    let max = match required_integer(doc, "/players/max", 0, u32::MAX as i64) {
        Ok(max) => max as u32,
        Err(e) => { return Err(e); },
    };
    let online = match required_integer(doc, "/players/online", 0, u32::MAX as i64) {
        Ok(online) => online as u32,
        Err(e) => { return Err(e); },
    };
    let listed = match sample(doc) {
        Ok(listed) => listed,
        Err(e) => { return Err(e); },
    };
    let chat = match description(doc) {
        Ok(chat) => chat,
        Err(e) => { return Err(e); },
    };
    let favicon_uri = match optional_text(doc, "/favicon") {
        Ok(uri) => uri,
        Err(e) => { return Err(e); },
    };
    let favicon = match &favicon_uri {
        None => None,
        Some(uri) => match crate::favicon::decode_favicon(uri.as_str()) {
            Ok(image) => Some(image),
            Err(e) => { return Err(e); },
        },
    };
    let previews_chat = match optional_flag(doc, "/previewsChat") {
        Ok(flag) => flag,
        Err(e) => { return Err(e); },
    };
    let enforces_secure_chat = match optional_flag(doc, "/enforcesSecureChat") {
        Ok(flag) => flag,
        Err(e) => { return Err(e); },
    };
    let mods = match mod_info(doc) {
        Ok(mods) => mods,
        Err(e) => { return Err(e); },
    };
    Ok(
        StatusResponse {
            version: Version { name, protocol },
            players: Players { max, online, sample: listed },
            description: chat,
            favicon,
            previews_chat,
            enforces_secure_chat,
            mod_info: mods,
        },
    )
}

/// Reads a status out of the JSON text of a status response.
pub fn decode_status(text: &str) -> (res: Result<StatusResponse, Error>)
    ensures
        match res {
            Ok(status) => spec_decodes(text@, status) && spec_decode_fault(text@) is None,
            Err(e) => spec_decode_fault(text@) == Some(e),
        },
{
    match json_parse(text) {
        Some(doc) => status_of(&doc),
        None => Err(Error::Decode(DecodeFault::InvalidJson)),
    }
}

} // verus!
