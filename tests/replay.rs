use arrow2::array::Array;
use arrow2::datatypes::{DataType, Field};
use peppi::frame::PortOccupancy;
use peppi::game::immutable::Game as ParsedGame;
use peppi::game::{Bytes, End, Port, Start};
use peppi::io::slippi::Version;
use peppi_py::error::PyO3ArrowError;
use peppi_py::game::{assemble, game_from_parse, Game};
use peppi_py::handover::{frames_field, FramesPlan};
use peppi_py::occupancy::port_occupancy;

const START_JSON: &str = r#"{
    "slippi": {"version": [0, 1, 0]},
    "bitfield": [50, 1, 134, 76],
    "is_raining_bombs": false,
    "is_teams": false,
    "item_spawn_frequency": -1,
    "self_destruct_score": -1,
    "stage": 31,
    "timer": 480,
    "item_spawn_bitfield": [255, 255, 255, 255, 255],
    "damage_ratio": 1.0,
    "players": [
        {"port": "P1", "character": 2, "type": "Human", "stocks": 4, "costume": 0,
         "team": null, "handicap": 9, "bitfield": 192, "cpu_level": null,
         "damage_start": 0, "damage_spawn": 0, "offense_ratio": 1.0,
         "defense_ratio": 1.0, "model_scale": 1.0},
        {"port": "P2", "character": 14, "type": "Human", "stocks": 4, "costume": 1,
         "team": null, "handicap": 9, "bitfield": 192, "cpu_level": null,
         "damage_start": 0, "damage_spawn": 0, "offense_ratio": 1.0,
         "defense_ratio": 1.0, "model_scale": 1.0}
    ],
    "random_seed": 42,
    "bytes": ""
}"#;

fn read_slippi(bytes: &[u8], skip_frames: bool) -> Result<Game, PyO3ArrowError> {
    let opts = peppi::io::slippi::de::Opts { skip_frames, ..Default::default() };
    game_from_parse(peppi::io::slippi::read(std::io::Cursor::new(bytes), Some(&opts)), skip_frames)
}

fn read_peppi(bytes: &[u8], skip_frames: bool) -> Result<Game, PyO3ArrowError> {
    let opts = peppi::io::peppi::de::Opts { skip_frames };
    game_from_parse(peppi::io::peppi::read(std::io::Cursor::new(bytes), Some(&opts)), skip_frames)
}

fn start() -> Start {
    let mut start: Start = serde_json::from_str(START_JSON).unwrap();
    let mut raw = vec![0u8; 0x140];
    for n in 0..6 {
        raw[0x64 + 36 * n + 1] = 3;
    }
    start.bytes = Bytes(raw);
    start
}

fn null_frames(frame_count: usize, ports: &[PortOccupancy]) -> peppi::frame::immutable::Frame {
    let version = Version(0, 1, 0);
    let mut frames = peppi::frame::mutable::Frame::with_capacity(frame_count, version, &ports);
    for i in 0..frame_count {
        frames.id.push(Some(-123 + i as i32));
        for port in frames.ports.iter_mut() {
            port.leader.push_null(version);
            if let Some(follower) = port.follower.as_mut() {
                follower.push_null(version);
            }
        }
    }
    frames.into()
}

fn parsed_game(start: Start) -> ParsedGame {
    let ports: Vec<PortOccupancy> = start
        .players
        .iter()
        .map(|p| PortOccupancy { port: p.port, follower: p.character == 14 })
        .collect();
    let end: End = serde_json::from_str(r#"{"method": "Game", "bytes": "Ag=="}"#).unwrap();
    let mut metadata = serde_json::Map::new();
    metadata.insert("playedOn".to_string(), serde_json::Value::String("dolphin".to_string()));
    ParsedGame {
        frames: null_frames(0, &ports),
        start,
        end: Some(end),
        metadata: Some(metadata),
        gecko_codes: None,
        hash: None,
        quirks: None,
    }
}

fn write_slippi(game: &ParsedGame) -> Vec<u8> {
    let mut buf = Vec::new();
    peppi::io::slippi::write(&mut buf, game).unwrap();
    buf
}

fn slippi_bytes() -> Vec<u8> {
    write_slippi(&parsed_game(start()))
}

/// The same game in the columnar format, with its start block as the Slippi
/// writer laid it out and three frames without data.
fn peppi_bytes() -> Vec<u8> {
    let mut game = peppi::io::slippi::read(std::io::Cursor::new(slippi_bytes()), None).unwrap();
    let ports = [
        PortOccupancy { port: Port::P1, follower: false },
        PortOccupancy { port: Port::P2, follower: true },
    ];
    game.frames = null_frames(3, &ports);
    let mut buf = Vec::new();
    peppi::io::peppi::write(&mut buf, game, None).unwrap();
    buf
}

fn ok(r: Result<Game, PyO3ArrowError>) -> Game {
    match r {
        Ok(g) => g,
        Err(e) => panic!("read failed: {}", e.message()),
    }
}

fn json(text: &str) -> serde_json::Value {
    serde_json::from_str(text).unwrap()
}

/// The frames column as the host receives it: its field and its length.
fn column(plan: FramesPlan) -> (Field, usize) {
    let array = plan.frames.into_struct_array(plan.version, &plan.ports);
    let len = array.len();
    (frames_field(array.data_type().clone()), len)
}

fn port_fields(data_type: &DataType) -> Vec<(String, Vec<String>)> {
    let DataType::Struct(fields) = data_type else { panic!("frames must be a struct") };
    let ports = fields.iter().find(|f| f.name == "ports").expect("a ports column");
    let DataType::Struct(ports) = &ports.data_type else { panic!("ports must be a struct") };
    ports
        .iter()
        .map(|p| {
            let DataType::Struct(parts) = &p.data_type else { panic!("a port must be a struct") };
            (p.name.clone(), parts.iter().map(|f| f.name.clone()).collect())
        })
        .collect()
}

#[test]
fn skip_frames_roundtrip() {
    let g = ok(read_slippi(&slippi_bytes(), true));
    assert!(g.frames.is_none());
    let start = json(&g.start);
    assert!(start.as_object().is_some_and(|o| !o.is_empty()));
    assert_eq!(start["players"].as_array().map(|p| p.len()), Some(2));
    let end = json(g.end.as_deref().expect("an end record"));
    assert!(end.as_object().is_some_and(|o| !o.is_empty()));
    let metadata = json(g.metadata.as_deref().expect("a metadata record"));
    assert_eq!(metadata["playedOn"], "dolphin");
    assert!(g.hash.as_ref().map_or(true, |h| h.len() >= 10 && h.len() <= 16));
}

#[test]
fn frames_present() {
    let g = ok(read_slippi(&slippi_bytes(), false));
    let (field, len) = column(g.frames.expect("frames were not skipped"));
    assert_eq!(field.name, "frames");
    assert!(!field.is_nullable);
    assert!(matches!(field.data_type, DataType::Struct(_)));
    assert_eq!(len, 0);
    let p = ok(read_peppi(&peppi_bytes(), false));
    let (field, len) = column(p.frames.expect("frames were not skipped"));
    assert_eq!(field.name, "frames");
    assert_eq!(len, 3);
}

#[test]
fn ice_climbers_follower_column() {
    let g = ok(read_slippi(&slippi_bytes(), false));
    let plan = g.frames.expect("frames were not skipped");
    assert_eq!(plan.ports.len(), 2);
    assert!(!plan.ports[0].follower);
    assert!(plan.ports[1].follower);
    let (field, _) = column(plan);
    let ports = port_fields(&field.data_type);
    assert_eq!(
        ports,
        vec![
            ("P1".to_string(), vec!["leader".to_string()]),
            ("P2".to_string(), vec!["leader".to_string(), "follower".to_string()]),
        ]
    );
}

#[test]
fn columnar_format_parity() {
    let s = ok(read_slippi(&slippi_bytes(), false));
    let p = ok(read_peppi(&peppi_bytes(), false));
    assert_eq!(json(&s.start), json(&p.start));
    assert_eq!(s.end.as_deref().map(json), p.end.as_deref().map(json));
    assert_eq!(s.metadata.as_deref().map(json), p.metadata.as_deref().map(json));
    let (sf, _) = column(s.frames.expect("slippi frames"));
    let (pf, _) = column(p.frames.expect("peppi frames"));
    assert_eq!(sf, pf);
}

#[test]
fn columnar_skip_frames() {
    let p = ok(read_peppi(&peppi_bytes(), true));
    assert!(p.frames.is_none());
    assert!(p.end.is_some());
}

#[test]
fn truncated_replay_is_a_parser_error() {
    let bytes = slippi_bytes();
    let truncated = &bytes[..bytes.len() / 2];
    assert!(matches!(read_slippi(truncated, false), Err(PyO3ArrowError::PeppiError(_))));
}


#[test]
fn game_without_players_has_no_frames_column() {
    let mut start = start();
    start.players.clear();
    let bytes = write_slippi(&parsed_game(start));
    match read_slippi(&bytes, false) {
        Err(PyO3ArrowError::PeppiPyError(m)) => assert_eq!(m, "game has no players"),
        _ => panic!("frames of a game without players must be refused"),
    }
    let g = ok(read_slippi(&bytes, true));
    assert!(g.frames.is_none());
    assert_eq!(json(&g.start)["players"].as_array().map(|p| p.len()), Some(0));
}

fn start_with(players: &[(Port, u8)]) -> Start {
    let mut s = start();
    let template = s.players[0].clone();
    s.players = players
        .iter()
        .map(|&(port, character)| {
            let mut p = template.clone();
            p.port = port;
            p.character = character;
            p
        })
        .collect();
    s
}

#[test]
fn occupancy_follows_players_in_order() {
    let s = start_with(&[(Port::P3, 2), (Port::P1, 14), (Port::P4, 15)]);
    let r = port_occupancy(&s);
    assert_eq!(r.len(), 3);
    assert_eq!(r[0].port, Port::P3);
    assert!(!r[0].follower);
    assert_eq!(r[1].port, Port::P1);
    assert!(r[1].follower);
    assert_eq!(r[2].port, Port::P4);
    assert!(!r[2].follower);
}

#[test]
fn occupancy_of_no_players_is_empty() {
    assert!(port_occupancy(&start_with(&[])).is_empty());
}

#[test]
fn ice_climbers_on_second_port_only_follower() {
    let r = port_occupancy(&start());
    assert_eq!(r.len(), 2);
    assert_eq!(r[0].port, Port::P1);
    assert!(!r[0].follower);
    assert_eq!(r[1].port, Port::P2);
    assert!(r[1].follower);
}

#[test]
fn frames_that_miss_a_port_are_refused() {
    let mut game = parsed_game(start());
    game.frames = null_frames(1, &[PortOccupancy { port: Port::P1, follower: false }]);
    match assemble(game, false) {
        Err(PyO3ArrowError::PeppiPyError(m)) => {
            assert_eq!(m, "frames do not match the game's players")
        }
        _ => panic!("frames without the second port must be refused"),
    }
}

#[test]
fn frames_without_the_follower_are_refused() {
    let mut game = parsed_game(start());
    let ports = [
        PortOccupancy { port: Port::P1, follower: false },
        PortOccupancy { port: Port::P2, follower: false },
    ];
    game.frames = null_frames(1, &ports);
    assert!(matches!(assemble(game, false), Err(PyO3ArrowError::PeppiPyError(_))));
    let mut game = parsed_game(start());
    game.frames = null_frames(1, &ports);
    let g = ok(assemble(game, true));
    assert!(g.frames.is_none());
}

#[test]
fn assembled_texts_are_the_records_json() {
    let game = parsed_game(start());
    let start_json = serde_json::to_string(&game.start).unwrap();
    let end_json = serde_json::to_string(&game.end).unwrap();
    let metadata_json = serde_json::to_string(&game.metadata).unwrap();
    let g = ok(assemble(game, true));
    assert_eq!(g.start, start_json);
    assert_eq!(g.end, Some(end_json));
    assert_eq!(g.metadata, Some(metadata_json));
}

#[test]
fn assembled_records_keep_absence() {
    let mut game = parsed_game(start());
    game.end = None;
    game.hash = Some("0123456789ab".to_string());
    let g = ok(assemble(game, false));
    assert!(g.end.is_none());
    assert!(g.metadata.is_some());
    assert_eq!(g.hash.as_deref(), Some("0123456789ab"));
    assert!(g.frames.is_some());
}
