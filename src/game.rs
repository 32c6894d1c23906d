//! Assembling a game for the host from a parsed replay.
use crate::bridge::{
    absent_if_null, end_json, end_text, frames_mismatch_text, metadata_json, metadata_text,
    missing_start_text, no_players_text, null_text, optional_dict_text, required_dict_text,
    start_json, start_text,
};
use crate::error::PyO3ArrowError;
use crate::handover::{frames_fit, frames_fit_check, FramesPlan};
use crate::occupancy::{occupancies, port_occupancy};
use peppi::game::immutable::Game as ParsedGame;
use peppi::game::{End, GeckoCodes, Player, Quirks};
use vstd::prelude::*;

verus! {

/// A fully parsed replay, as the parser returns it.
#[verifier::external_type_specification]
pub struct ExParsedGame(ParsedGame);

/// The parser's end-of-game record.
#[verifier::external_type_specification]
#[verifier::external_body]
pub struct ExEnd(End);

/// Gecko codes in use during the game.
#[verifier::external_type_specification]
#[verifier::external_body]
pub struct ExGeckoCodes(GeckoCodes);

/// Format quirks the parser records for round-tripping.
#[verifier::external_type_specification]
#[verifier::external_body]
pub struct ExQuirks(Quirks);

/// A JSON object, as the parser keeps free-form metadata.
#[verifier::external_type_specification]
#[verifier::external_body]
#[verifier::reject_recursive_types(K)]
#[verifier::reject_recursive_types(V)]
pub struct ExJsonMap<K, V>(serde_json::Map<K, V>);

/// A JSON value.
#[verifier::external_type_specification]
#[verifier::external_body]
pub struct ExJsonValue(serde_json::Value);

/// A game as handed to the host: the start, end and metadata records as JSON
/// texts (absent ones as `None`), the replay's hash, and, unless frames were
/// skipped, the frames with what shapes them into the frames column.
pub struct Game {
    pub start: String,
    pub end: Option<String>,
    pub metadata: Option<String>,
    pub hash: Option<String>,
    pub frames: Option<FramesPlan>,
}

/// The game that the serialised records, the hash and the frames column make
/// up: the first serialisation error in the order start, end, metadata is
/// passed on; a `null` start is an error; a `null` end or metadata is absent.
pub fn assemble_parts(
    start: Result<String, serde_json::Error>,
    end: Result<String, serde_json::Error>,
    metadata: Result<String, serde_json::Error>,
    hash: Option<String>,
    frames: Option<FramesPlan>,
) -> (r: Result<Game, PyO3ArrowError>)
    ensures
        start is Err ==> r == Err::<Game, _>(PyO3ArrowError::JsonError(start->Err_0)),
        start is Ok && start->Ok_0@ == null_text() ==> r is Err && r->Err_0 is PeppiPyError
            && r->Err_0->PeppiPyError_0@ == missing_start_text(),
        start is Ok && start->Ok_0@ != null_text() && end is Err ==> r == Err::<Game, _>(
            PyO3ArrowError::JsonError(end->Err_0),
        ),
        start is Ok && start->Ok_0@ != null_text() && end is Ok && metadata is Err ==> r
            == Err::<Game, _>(PyO3ArrowError::JsonError(metadata->Err_0)),
        start is Ok && start->Ok_0@ != null_text() && end is Ok && metadata is Ok ==> r
            == Ok::<_, PyO3ArrowError>(
            Game {
                start: start->Ok_0,
                end: absent_if_null(end->Ok_0),
                metadata: absent_if_null(metadata->Ok_0),
                hash,
                frames,
            },
        ),
{
    let start = match start {
        Err(e) => {
            return Err(PyO3ArrowError::JsonError(e));
        },
        Ok(s) => match required_dict_text(s) {
            Err(e) => {
                return Err(e);
            },
            Ok(s) => s,
        },
    };
    let end = match optional_dict_text(end) {
        Err(e) => {
            return Err(e);
        },
        Ok(t) => t,
    };
    let metadata = match optional_dict_text(metadata) {
        Err(e) => {
            return Err(e);
        },
        Ok(t) => t,
    };
    Ok(Game { start, end, metadata, hash, frames })
}

/// What a game for the host holds of a parsed replay: the serialised start
/// record; the serialised end and metadata records, absent exactly when the
/// records are; the hash; and, unless frames are skipped, the replay's frames
/// with its format version and the occupancies of its players, which fit.
pub open spec fn assembled_from(g: Game, game: ParsedGame, skip_frames: bool) -> bool {
    &&& g.start@ == start_text(game.start)
    &&& (g.end is None <==> game.end is None)
    &&& (g.end is Some ==> g.end->Some_0@ == end_text(game.end))
    &&& (g.metadata is None <==> game.metadata is None)
    &&& (g.metadata is Some ==> g.metadata->Some_0@ == metadata_text(game.metadata))
    &&& g.hash == game.hash
    &&& (g.frames is None <==> skip_frames)
    &&& (g.frames is Some ==> {
        &&& g.frames->Some_0.frames == game.frames
        &&& g.frames->Some_0.version == game.start.slippi.version
        &&& g.frames->Some_0.ports@ == occupancies(game.start.players@)
        &&& frames_fit(game.frames, game.start.slippi.version, g.frames->Some_0.ports@)
    })
}

/// The message of the error raised when frames are asked of a game whose
/// frame data does not fit its players: that it has no players when it has
/// none, else that the frames do not match them.
pub open spec fn misfit_error(players: Seq<Player>) -> Seq<char> {
    if players.len() == 0 {
        no_players_text()
    } else {
        frames_mismatch_text()
    }
}

/// The game for the host from a parsed replay: its records serialised, its
/// hash passed through, and its frames exported unless they are skipped.
/// Frames that do not fit the start's players are refused.
pub fn assemble(game: ParsedGame, skip_frames: bool) -> (r: Result<Game, PyO3ArrowError>)
    ensures
        skip_frames ==> r is Ok,
        !skip_frames ==> (r is Ok <==> frames_fit(
            game.frames,
            game.start.slippi.version,
            occupancies(game.start.players@),
        )),
        r is Err ==> r->Err_0 is PeppiPyError && r->Err_0->PeppiPyError_0@ == misfit_error(
            game.start.players@,
        ),
        r is Ok ==> assembled_from(r->Ok_0, game, skip_frames),
{
    let start = start_json(&game.start);
    let end = end_json(&game.end);
    let metadata = metadata_json(&game.metadata);
    let mut assembled = match assemble_parts(start, end, metadata, game.hash, None) {
        Err(e) => {
            return Err(e);
        },
        Ok(g) => g,
    };
    if !skip_frames {
        let ports = port_occupancy(&game.start);
        let version = game.start.slippi.version;
        if !frames_fit_check(&game.frames, &version, &ports) {
            if ports.len() == 0 {
                let m: &'static str = "game has no players";
                proof {
                    reveal_strlit("game has no players");
                }
                return Err(PyO3ArrowError::PeppiPyError(m));
            } else {
                let m: &'static str = "frames do not match the game's players";
                proof {
                    reveal_strlit("frames do not match the game's players");
                }
                return Err(PyO3ArrowError::PeppiPyError(m));
            }
        }
        assembled.frames = Some(FramesPlan { frames: game.frames, version, ports });
    }
    Ok(assembled)
}

/// The game for the host from a parse: a parser error is passed on, else the
/// parsed replay is assembled.
pub fn game_from_parse(parsed: Result<ParsedGame, peppi::io::Error>, skip_frames: bool) -> (r:
    Result<Game, PyO3ArrowError>)
    ensures
        parsed is Err ==> r == Err::<Game, _>(PyO3ArrowError::PeppiError(parsed->Err_0)),
        parsed is Ok && skip_frames ==> r is Ok,
        parsed is Ok && !skip_frames ==> (r is Ok <==> frames_fit(
            parsed->Ok_0.frames,
            parsed->Ok_0.start.slippi.version,
            occupancies(parsed->Ok_0.start.players@),
        )),
        parsed is Ok && r is Err ==> r->Err_0 is PeppiPyError && r->Err_0->PeppiPyError_0@
            == misfit_error(parsed->Ok_0.start.players@),
        r is Ok ==> assembled_from(r->Ok_0, parsed->Ok_0, skip_frames),
{
    match parsed {
        Err(e) => Err(PyO3ArrowError::PeppiError(e)),
        Ok(game) => assemble(game, skip_frames),
    }
}

/// Two replays whose start, end and metadata records and hash are equal, in
/// whichever format each was read, give the host equal texts and hash, and,
/// when frames are kept, frames shaped by the same version and occupancies.
pub proof fn lemma_equal_replays_assemble_alike(
    g1: Game,
    g2: Game,
    p1: ParsedGame,
    p2: ParsedGame,
    skip_frames: bool,
)
    requires
        assembled_from(g1, p1, skip_frames),
        assembled_from(g2, p2, skip_frames),
        p1.start == p2.start,
        p1.end == p2.end,
        p1.metadata == p2.metadata,
        p1.hash == p2.hash,
    ensures
        g1.start@ == g2.start@,
        g1.end is Some <==> g2.end is Some,
        g1.end is Some ==> g1.end->Some_0@ == g2.end->Some_0@,
        g1.metadata is Some <==> g2.metadata is Some,
        g1.metadata is Some ==> g1.metadata->Some_0@ == g2.metadata->Some_0@,
        g1.hash == g2.hash,
        g1.frames is Some <==> g2.frames is Some,
        g1.frames is Some ==> g1.frames->Some_0.version == g2.frames->Some_0.version
            && g1.frames->Some_0.ports@ == g2.frames->Some_0.ports@,
{
}

} // verus!
