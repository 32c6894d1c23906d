//! Which ports the frames column has, and which of them carry a follower.
use peppi::frame::PortOccupancy;
use peppi::game::{
    Bytes, Language, Match, Netplay, Player, PlayerType, Port, Scene, Start, Team, Ucf,
};
use peppi::io::slippi::{Slippi, Version};
use peppi::game::shift_jis::MeleeString;
use vstd::prelude::*;

verus! {

/// A player slot of the parser: one of the four controller ports.
#[verifier::external_type_specification]
pub struct ExPort(Port);

/// The parser's schema hint for one port.
#[verifier::external_type_specification]
pub struct ExPortOccupancy(PortOccupancy);

/// The parser's start-of-game record.
#[verifier::external_type_specification]
pub struct ExStart(Start);

/// One player of the start-of-game record.
#[verifier::external_type_specification]
pub struct ExPlayer(Player);

/// The Slippi block of the start-of-game record.
#[verifier::external_type_specification]
pub struct ExSlippi(Slippi);

/// A Slippi format version: major, minor and build numbers.
#[verifier::external_type_specification]
pub struct ExVersion(Version);

/// Whether a player is human, a CPU or a demo.
#[verifier::external_type_specification]
#[verifier::external_body]
pub struct ExPlayerType(PlayerType);

/// A player's team.
#[verifier::external_type_specification]
#[verifier::external_body]
pub struct ExTeam(Team);

/// A player's UCF settings.
#[verifier::external_type_specification]
#[verifier::external_body]
pub struct ExUcf(Ucf);

/// A string decoded from Melee's Shift JIS.
#[verifier::external_type_specification]
#[verifier::external_body]
pub struct ExMeleeString(MeleeString);

/// A player's netplay identity.
#[verifier::external_type_specification]
#[verifier::external_body]
pub struct ExNetplay(Netplay);

/// Raw bytes kept for round-tripping.
#[verifier::external_type_specification]
#[verifier::external_body]
pub struct ExBytes(Bytes);

/// The game's scene numbers.
#[verifier::external_type_specification]
#[verifier::external_body]
pub struct ExScene(Scene);

/// The game's language.
#[verifier::external_type_specification]
#[verifier::external_body]
pub struct ExLanguage(Language);

/// The match a game belongs to.
#[verifier::external_type_specification]
#[verifier::external_body]
pub struct ExMatch(Match);

/// The parser's character id of the Ice Climbers.
pub open spec fn ice_climbers_id() -> u8 {
    14
}

/// The occupancy of one player: its port, with a follower exactly when the
/// character is the Ice Climbers.
pub open spec fn occupancy_of(p: Player) -> PortOccupancy {
    PortOccupancy { port: p.port, follower: p.character == ice_climbers_id() }
}

/// The occupancies of the players, in their order.
pub open spec fn occupancies(players: Seq<Player>) -> Seq<PortOccupancy> {
    players.map_values(|p: Player| occupancy_of(p))
}

/// Relies on peppi::game::ICE_CLIMBERS, the parser's id of the Ice Climbers.
#[verifier::external_body]
fn ice_climbers() -> (r: u8)
    ensures
        r == ice_climbers_id(),
{
    peppi::game::ICE_CLIMBERS
}

/// One occupancy per player of the start-of-game record, in the players'
/// order.
pub fn port_occupancy(start: &Start) -> (r: Vec<PortOccupancy>)
    ensures
        r@.len() == start.players@.len(),
        forall|i: int| 0 <= i < r@.len() ==> #[trigger] r@[i].port == start.players@[i].port,
        forall|i: int|
            0 <= i < r@.len() ==> (#[trigger] r@[i].follower <==> start.players@[i].character
                == ice_climbers_id()),
        r@ == occupancies(start.players@),
{
    let ics = ice_climbers();
    let players = &start.players;
    let mut r: Vec<PortOccupancy> = Vec::new();
    let mut i: usize = 0;
    while i < players.len()
        invariant
            players == start.players,
            i <= players@.len(),
            ics == ice_climbers_id(),
            r@.len() == i,
            forall|j: int| 0 <= j < i ==> r@[j] == occupancy_of(#[trigger] players@[j]),
        decreases players@.len() - i,
    {
        let p = &players[i];
        r.push(PortOccupancy { port: p.port, follower: p.character == ics });
        i = i + 1;
    }
    assert(r@ =~= occupancies(start.players@));
    r
}

} // verus!
