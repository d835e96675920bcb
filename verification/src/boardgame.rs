//! The catalog record the application browses and creates, and the form
//! field keys under which its parts are edited.
use vstd::prelude::*;

verus! {

/// Form field key for a record's name.
pub const BG_NAME: &'static str = "name";

/// Form field key for the smallest supported number of players.
pub const BG_MIN_PLAYERS: &'static str = "min players";

/// Form field key for the largest supported number of players.
pub const BG_MAX_PLAYERS: &'static str = "max players";

/// Form field key for the typical play time in minutes.
pub const BG_PLAY_TIME: &'static str = "play time";

/// Form field key for a record's free-text description.
pub const BG_DESCRIPTION: &'static str = "description";

/// A catalog record. `id` is assigned by the record store and absent on a
/// record that was never stored.
#[derive(Debug)]
pub struct Boardgame {
    pub id: Option<i64>,
    pub name: String,
    pub min_players: i32,
    pub max_players: i32,
    pub play_time_minutes: i32,
    pub description: String,
}

/// The mathematical reading of a record.
#[verifier::ext_equal]
pub ghost struct BoardgameView {
    pub id: Option<i64>,
    pub name: Seq<char>,
    pub min_players: i32,
    pub max_players: i32,
    pub play_time_minutes: i32,
    pub description: Seq<char>,
}

impl View for Boardgame {
    type V = BoardgameView;

    open spec fn view(&self) -> BoardgameView {
        BoardgameView {
            id: self.id,
            name: self.name@,
            min_players: self.min_players,
            max_players: self.max_players,
            play_time_minutes: self.play_time_minutes,
            description: self.description@,
        }
    }
}

} // verus!
