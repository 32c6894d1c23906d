//! The JSON bridge: start, end and metadata records travel to the host as
//! JSON texts, which the host decodes into dictionaries. A record that
//! serialises to JSON `null` was absent.
use crate::error::PyO3ArrowError;
use peppi::game::{End, Start};
use vstd::prelude::*;

verus! {

/// The JSON text of an absent value.
pub open spec fn null_text() -> Seq<char> {
    "null"@
}

/// The message of the error raised when the start-of-game record is absent.
pub open spec fn missing_start_text() -> Seq<char> {
    "missing game start"@
}

/// The message of the error raised when frames are asked of a game without
/// players: a frames column needs at least one port.
pub open spec fn no_players_text() -> Seq<char> {
    "game has no players"@
}

/// The message of the error raised when frames are asked of a game whose
/// frame data does not fit its players.
pub open spec fn frames_mismatch_text() -> Seq<char> {
    "frames do not match the game's players"@
}

/// A JSON text as the host will see it: absent when it is `null`, else the
/// text itself.
pub open spec fn absent_if_null(text: String) -> Option<String> {
    if text@ == null_text() {
        None
    } else {
        Some(text)
    }
}

/// A JSON text as the host will see it: absent when it is `null`, else the
/// text itself.
pub fn dict_text(text: String) -> (r: Option<String>)
    ensures
        r == absent_if_null(text),
{
    let null = "null".to_owned();
    proof {
        reveal_strlit("null");
    }
    if text == null {
        None
    } else {
        Some(text)
    }
}

/// The JSON text of a record that must be present: an error naming the
/// missing start-of-game record when the text is `null`.
pub fn required_dict_text(text: String) -> (r: Result<String, PyO3ArrowError>)
    ensures
        text@ == null_text() ==> (r matches Err(PyO3ArrowError::PeppiPyError(m)) && m@
            == missing_start_text()),
        text@ != null_text() ==> r == Ok::<String, PyO3ArrowError>(text),
{
    match dict_text(text) {
        Some(t) => Ok(t),
        None => {
            let m: &'static str = "missing game start";
            proof {
                reveal_strlit("missing game start");
            }
            Err(PyO3ArrowError::PeppiPyError(m))
        },
    }
}

/// The serialisation of a record, as the host will see it: a serialisation
/// error is passed on, and a `null` text stands for an absent record.
pub fn optional_dict_text(json: Result<String, serde_json::Error>) -> (r: Result<
    Option<String>,
    PyO3ArrowError,
>)
    ensures
        json matches Err(e) ==> r == Err::<Option<String>, _>(PyO3ArrowError::JsonError(e)),
        json matches Ok(t) ==> r == Ok::<_, PyO3ArrowError>(absent_if_null(t)),
{
    match json {
        Err(e) => Err(PyO3ArrowError::JsonError(e)),
        Ok(t) => Ok(dict_text(t)),
    }
}

/// The JSON text serde_json writes for a start-of-game record.
pub uninterp spec fn start_text(start: Start) -> Seq<char>;

/// The JSON text serde_json writes for an optional end-of-game record.
pub uninterp spec fn end_text(end: Option<End>) -> Seq<char>;

/// The JSON text serde_json writes for optional free-form metadata.
pub uninterp spec fn metadata_text(
    metadata: Option<serde_json::Map<String, serde_json::Value>>,
) -> Seq<char>;

/// Relies on serde_json::to_string on the parser's start-of-game record. It
/// fails only where a `Serialize` impl fails or a map has a key that is not a
/// string; the record's impls are derived, bar one that writes its raw bytes
/// as a base64 string, and it holds no map. A struct is written as a JSON
/// object, never as `null`.
#[verifier::external_body]
pub(crate) fn start_json(start: &Start) -> (r: Result<String, serde_json::Error>)
    ensures
        r is Ok,
        r->Ok_0@ == start_text(*start),
        r->Ok_0@ != null_text(),
{
    serde_json::to_string(start)
}

/// Relies on serde_json::to_string on the parser's optional end-of-game
/// record: its impls are derived, bar the raw bytes written as a base64
/// string, so it does not fail; `None` is written as `null`, a record as a
/// JSON object.
#[verifier::external_body]
pub(crate) fn end_json(end: &Option<End>) -> (r: Result<String, serde_json::Error>)
    ensures
        r is Ok,
        r->Ok_0@ == end_text(*end),
        r->Ok_0@ == null_text() <==> end is None,
{
    serde_json::to_string(end)
}

/// Relies on serde_json::to_string on optional free-form metadata: a map with
/// string keys and JSON values does not fail; `None` is written as `null`, a
/// map as a JSON object.
#[verifier::external_body]
pub(crate) fn metadata_json(
    metadata: &Option<serde_json::Map<String, serde_json::Value>>,
) -> (r: Result<String, serde_json::Error>)
    ensures
        r is Ok,
        r->Ok_0@ == metadata_text(*metadata),
        r->Ok_0@ == null_text() <==> metadata is None,
{
    serde_json::to_string(metadata)
}

} // verus!
