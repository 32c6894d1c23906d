//! The frames column: which frame data can be shaped by a game's players,
//! and the field that describes the column to the host.
use arrow2::datatypes::{DataType, Field};
use peppi::frame::immutable::Frame;
use peppi::frame::PortOccupancy;
use peppi::io::slippi::Version;
use vstd::prelude::*;

verus! {

/// An Arrow logical type.
#[verifier::external_type_specification]
#[verifier::external_body]
pub struct ExDataType(DataType);

/// An Arrow field: a name, a logical type, a nullability and metadata.
#[verifier::external_type_specification]
pub struct ExField(Field);

/// The parser's frame data, one column per per-frame field.
#[verifier::external_type_specification]
#[verifier::external_body]
pub struct ExFrame(Frame);

/// For each port of the frame data, in order, whether it holds follower data.
pub uninterp spec fn frame_followers(frames: Frame) -> Seq<bool>;

/// Which optional columns the frame data holds, in the order start, end,
/// item, item offsets, Fountain of Dreams platform and its offsets, Dream
/// Land Whispy and its offsets, Pokemon Stadium transformation and its
/// offsets.
pub uninterp spec fn frame_columns(frames: Frame) -> Seq<bool>;

/// Relies on the fields of peppi::frame::immutable::Frame: whether each port
/// holds follower data, and which optional columns are present.
#[verifier::external_body]
fn frame_shape(frames: &Frame) -> (r: (Vec<bool>, Vec<bool>))
    ensures
        r.0@ == frame_followers(*frames),
        r.1@ == frame_columns(*frames),
        r.1@.len() == 10,
{
    let followers = frames.ports.iter().map(|p| p.follower.is_some()).collect();
    let columns = vec![
        frames.start.is_some(),
        frames.end.is_some(),
        frames.item.is_some(),
        frames.item_offset.is_some(),
        frames.fod_platform.is_some(),
        frames.fod_platform_offset.is_some(),
        frames.dreamland_whispy.is_some(),
        frames.dreamland_whispy_offset.is_some(),
        frames.stadium_transformation.is_some(),
        frames.stadium_transformation_offset.is_some(),
    ];
    (followers, columns)
}

/// peppi's version test: the version is at least `major.minor`.
pub assume_specification[ Version::gte ](v: &Version, major: u8, minor: u8) -> (r: bool)
    ensures
        r == version_gte(*v, major, minor),
;

/// Whether a version is at least `major.minor`.
pub open spec fn version_gte(v: Version, major: u8, minor: u8) -> bool {
    v.0 > major || (v.0 == major && v.1 >= minor)
}

/// Whether frame data of this shape can be shaped by the port occupancies
/// for this version: at least one port, one frame port per occupancy with
/// follower data exactly where the occupancy has a follower, and every column
/// that the version carries.
pub open spec fn shape_fits(
    followers: Seq<bool>,
    columns: Seq<bool>,
    version: Version,
    ports: Seq<PortOccupancy>,
) -> bool {
    &&& columns.len() == 10
    &&& ports.len() > 0
    &&& followers.len() == ports.len()
    &&& forall|i: int| 0 <= i < ports.len() ==> #[trigger] followers[i] == ports[i].follower
    &&& version_gte(version, 2, 2) ==> columns[0]
    &&& version_gte(version, 3, 0) ==> columns[1] && columns[2] && columns[3]
    &&& version_gte(version, 3, 18) ==> columns[4] && columns[5] && columns[6] && columns[7]
        && columns[8] && columns[9]
}

/// Whether the frames can be shaped by the port occupancies for this version.
pub open spec fn frames_fit(frames: Frame, version: Version, ports: Seq<PortOccupancy>) -> bool {
    shape_fits(frame_followers(frames), frame_columns(frames), version, ports)
}

/// Tests whether frame data of this shape can be shaped by the port
/// occupancies for this version.
pub fn shape_fits_check(
    followers: &Vec<bool>,
    columns: &Vec<bool>,
    version: &Version,
    ports: &Vec<PortOccupancy>,
) -> (r: bool)
    ensures
        r == shape_fits(followers@, columns@, *version, ports@),
{
    if columns.len() != 10 || ports.len() == 0 || followers.len() != ports.len() {
        return false;
    }
    let mut i: usize = 0;
    while i < ports.len()
        invariant
            followers@.len() == ports@.len(),
            i <= ports@.len(),
            forall|j: int| 0 <= j < i ==> #[trigger] followers@[j] == ports@[j].follower,
        decreases ports@.len() - i,
    {
        if followers[i] != ports[i].follower {
            return false;
        }
        i = i + 1;
    }
    if version.gte(2, 2) && !columns[0] {
        return false;
    }
    if version.gte(3, 0) && !(columns[1] && columns[2] && columns[3]) {
        return false;
    }
    if version.gte(3, 18) && !(columns[4] && columns[5] && columns[6] && columns[7] && columns[8]
        && columns[9]) {
        return false;
    }
    true
}

/// Tests whether the frames can be shaped by the port occupancies for this
/// version.
pub fn frames_fit_check(frames: &Frame, version: &Version, ports: &Vec<PortOccupancy>) -> (r: bool)
    ensures
        r == frames_fit(*frames, *version, ports@),
{
    let (followers, columns) = frame_shape(frames);
    shape_fits_check(&followers, &columns, version, ports)
}

/// Relies on arrow2::datatypes::Field::new: a field with the given name, type
/// and nullability, and no metadata.
#[verifier::external_body]
fn new_field(name: &str, data_type: DataType, is_nullable: bool) -> (f: Field)
    ensures
        f.name@ == name@,
        f.data_type == data_type,
        f.is_nullable == is_nullable,
{
    Field::new(name, data_type, is_nullable)
}

/// The name of the frames column.
pub open spec fn frames_name() -> Seq<char> {
    "frames"@
}

/// The field that describes the frames column to the host: named `frames`,
/// of the given type, and not nullable.
pub fn frames_field(data_type: DataType) -> (f: Field)
    ensures
        f.name@ == frames_name(),
        f.data_type == data_type,
        !f.is_nullable,
{
    proof {
        reveal_strlit("frames");
    }
    new_field("frames", data_type, false)
}

/// The frames of a game with what shapes them into the frames column: the
/// format version and one occupancy per player.
pub struct FramesPlan {
    pub frames: Frame,
    pub version: Version,
    pub ports: Vec<PortOccupancy>,
}

} // verus!
