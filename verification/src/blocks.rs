//! Block-interaction decisions that are pure: the jukebox's reaction to a
//! use, the song name read from a playable component, and the furnace
//! placement facing. The world mutations these decide live outside the
//! library.

use vstd::prelude::*;
use vstd::string::StringSliceAdditionalSpecFns;

use crate::generation::Direction;

verus! {

/// What a use of the jukebox does.
#[derive(Clone, Copy, PartialEq, Eq, Structural, Debug)]
pub enum JukeboxAction {
    /// A record is playing: stop it and pop the record out.
    StopMusic,
    /// Start playing the registered song with this registry position.
    Play(u32),
    /// Nothing to do: the interaction passes through.
    Pass,
}

/// The jukebox block.
#[derive(Clone, Copy, PartialEq, Eq, Structural, Debug)]
pub struct JukeboxBlock;

impl JukeboxBlock {
    /// The reaction to a use: stop when a record already plays; otherwise
    /// play the song the held item carries, when it names a registered one.
    pub fn use_with_item_action(&self, has_record: bool, song_index: Option<u32>) -> (r:
        JukeboxAction)
        ensures
            has_record ==> r == JukeboxAction::StopMusic,
            !has_record && song_index is Some ==> r == JukeboxAction::Play(song_index->0),
            !has_record && song_index is None ==> r == JukeboxAction::Pass,
    {
        if has_record {
            JukeboxAction::StopMusic
        } else {
            match song_index {
                Some(i) => JukeboxAction::Play(i),
                None => JukeboxAction::Pass,
            }
        }
    }
}

/// The path part of a `namespace:path` resource location: the bytes after
/// the first colon, or nothing when no colon splits the token in two.
pub open spec fn spec_song_name(b: Seq<u8>) -> Option<Seq<u8>> {
    if exists|i: int| 0 <= i < b.len() && b[i] == 58u8 {
        let i = choose|i: int| 0 <= i < b.len() && b[i] == 58u8 && (forall|j: int|
            0 <= j < i ==> b[j] != 58u8);
        Some(b.skip(i + 1))
    } else {
        None
    }
}

/// The path part of a `namespace:path` playable token, as bytes: what
/// follows the first colon.
pub fn song_name(playable: &str) -> (r: Option<Vec<u8>>)
    ensures
        r is Some ==> exists|i: int|
            0 <= i < playable.spec_bytes().len() && playable.spec_bytes()[i] == 58u8 && (forall|
                j: int,
            |
                0 <= j < i ==> playable.spec_bytes()[j] != 58u8) && r->0@ == playable.spec_bytes()
                .skip(i + 1),
        r is None ==> forall|i: int|
            0 <= i < playable.spec_bytes().len() ==> playable.spec_bytes()[i] != 58u8,
{
    let b: &[u8] = playable.as_bytes();
    let n = b.len();
    let mut i: usize = 0;
    while i < n
        invariant
            0 <= i <= n,
            n == b@.len(),
            b@ == playable.spec_bytes(),
            forall|j: int| 0 <= j < i ==> b@[j] != 58u8,
        decreases n - i,
    {
        if b[i] == 58u8 {
            let tail = vstd::slice::slice_subrange(b, i + 1, n);
            let out = vstd::slice::slice_to_vec(tail);
            proof {
                assert(out@ =~= playable.spec_bytes().skip(i + 1));
            }
            return Some(out);
        }
        i = i + 1;
    }
    None
}

/// The blast furnace block.
#[derive(Clone, Copy, PartialEq, Eq, Structural, Debug)]
pub struct BlastFurnaceBlock;

/// The compass direction opposite the given one.
pub fn opposite_direction(d: Direction) -> (r: Direction)
    ensures
        r == (match d {
            Direction::North => Direction::South,
            Direction::NorthEast => Direction::SouthWest,
            Direction::East => Direction::West,
            Direction::SouthEast => Direction::NorthWest,
            Direction::South => Direction::North,
            Direction::SouthWest => Direction::NorthEast,
            Direction::West => Direction::East,
            Direction::NorthWest => Direction::SouthEast,
        }),
{
    match d {
        Direction::North => Direction::South,
        Direction::NorthEast => Direction::SouthWest,
        Direction::East => Direction::West,
        Direction::SouthEast => Direction::NorthWest,
        Direction::South => Direction::North,
        Direction::SouthWest => Direction::NorthEast,
        Direction::West => Direction::East,
        Direction::NorthWest => Direction::SouthEast,
    }
}

impl BlastFurnaceBlock {
    /// On placement the furnace faces the player: the direction opposite the
    /// player's horizontal facing.
    pub fn placement_facing(&self, player_facing: Direction) -> (r: Direction)
        ensures
            r == (match player_facing {
                Direction::North => Direction::South,
                Direction::NorthEast => Direction::SouthWest,
                Direction::East => Direction::West,
                Direction::SouthEast => Direction::NorthWest,
                Direction::South => Direction::North,
                Direction::SouthWest => Direction::NorthEast,
                Direction::West => Direction::East,
                Direction::NorthWest => Direction::SouthEast,
            }),
    {
        opposite_direction(player_facing)
    }
}

} // verus!
