//! The save file's layout: the session count, then the record, each as four
//! bytes with the lowest byte first. Nothing precedes them, and whatever
//! follows the eighth byte is ignored on reading.

use crate::state::GameState;
use vstd::prelude::*;

verus! {

/// Why a save file could not be turned into a record, or a record into bytes.
#[derive(Clone, Copy, Debug, PartialEq, Eq, Structural)]
pub enum StoreError {
    /// The bytes do not hold a whole record.
    Decode,
    /// The encoder gave up on the record. The one in use never does.
    Encode,
}

/// The name of the save file, in the directory that the game is run from.
pub const SAVE_FILE_PATH: &'static str = "save_data.bin";

/// `bincode::ErrorKind`, the encoder's own error. It is passed on unread.
#[verifier::external_type_specification]
#[verifier::external_body]
pub struct ExErrorKind(bincode::ErrorKind);

/// The four bytes of `x`, lowest first.
pub open spec fn le_bytes(x: u32) -> Seq<u8> {
    seq![
        (x % 256) as u8,
        (x / 256 % 256) as u8,
        (x / 65536 % 256) as u8,
        (x / 16777216) as u8,
    ]
}

/// The number whose four bytes, lowest first, are the first four of `b`.
pub open spec fn le_value(b: Seq<u8>) -> int
    recommends
        b.len() >= 4,
{
    b[0] + 256 * b[1] + 65536 * b[2] + 16777216 * b[3]
}

/// The bytes that a record is saved as.
pub open spec fn encoded(state: GameState) -> Seq<u8> {
    le_bytes(state.game_count) + le_bytes(state.high_score)
}

/// The record that a save file's bytes hold, if they hold one.
pub open spec fn decoded(bytes: Seq<u8>) -> Option<GameState> {
    if bytes.len() >= 8 {
        Some(
            GameState {
                game_count: le_value(bytes.subrange(0, 4)) as u32,
                high_score: le_value(bytes.subrange(4, 8)) as u32,
            },
        )
    } else {
        None
    }
}

/// `bincode::serialize` on a pair of `u32`. With the settings that this entry
/// point fixes (fixed-width integers, little endian, no size limit) it writes
/// the two numbers one after the other, four bytes each, lowest byte first,
/// into a fresh `Vec`, and no step of that can fail.
#[verifier::external_body]
fn serialize_pair(first: u32, second: u32) -> (r: Result<Vec<u8>, bincode::Error>)
    ensures
        r is Ok,
        r matches Ok(bytes) ==> bytes@ == le_bytes(first) + le_bytes(second),
{
    bincode::serialize(&(first, second))
}

/// `bincode::deserialize` to a pair of `u32`. It reads four bytes, lowest
/// first, for each number and fails as soon as fewer than four are left;
/// this entry point allows bytes to remain after the pair.
#[verifier::external_body]
fn deserialize_pair(bytes: &[u8]) -> (r: Result<(u32, u32), bincode::Error>)
    ensures
        r is Ok <==> bytes@.len() >= 8,
        r matches Ok(pair) ==> pair.0 == le_value(bytes@.subrange(0, 4)) && pair.1 == le_value(
            bytes@.subrange(4, 8),
        ),
{
    bincode::deserialize::<(u32, u32)>(bytes)
}

/// The bytes to write to the save file for `state`: always eight, and always
/// `Ok`.
pub fn save_game_state(state: &GameState) -> (r: Result<Vec<u8>, StoreError>)
    ensures
        r matches Ok(bytes) && bytes@ == encoded(*state),
{
    match serialize_pair(state.game_count, state.high_score) {
        Ok(bytes) => Ok(bytes),
        Err(_) => Err(StoreError::Encode),
    }
}

/// The record held in the bytes of a save file. Fails exactly when fewer than
/// eight bytes were read.
pub fn load_game_state(contents: &[u8]) -> (r: Result<GameState, StoreError>)
    ensures
        match decoded(contents@) {
            Some(state) => r == Ok::<GameState, StoreError>(state),
            None => r == Err::<GameState, StoreError>(StoreError::Decode),
        },
{
    match deserialize_pair(contents) {
        Ok(pair) => Ok(GameState { game_count: pair.0, high_score: pair.1 }),
        Err(_) => Err(StoreError::Decode),
    }
}

/// The record to start a run from: the one in the save file where there is
/// a file, and the record of a player who has not played yet where there is none.
pub fn init_game_state(saved: Option<&[u8]>) -> (r: Result<GameState, StoreError>)
    ensures
        saved is None ==> r == Ok::<GameState, StoreError>(GameState::fresh()),
        saved matches Some(contents) ==> match decoded(contents@) {
            Some(state) => r == Ok::<GameState, StoreError>(state),
            None => r == Err::<GameState, StoreError>(StoreError::Decode),
        },
{
    match saved {
        Some(contents) => load_game_state(contents),
        None => Ok(GameState::new()),
    }
}

/// The four bytes of a number give the number back.
pub proof fn lemma_le_round_trip(x: u32)
    ensures
        le_bytes(x).len() == 4,
        le_value(le_bytes(x)) == x,
{
}

/// Saving a record and loading what was saved gives the same record, field
/// for field.
pub proof fn lemma_saved_state_loads_back(state: GameState)
    ensures
        encoded(state).len() == 8,
        decoded(encoded(state)) == Some(state),
{
    let bytes = encoded(state);
    lemma_le_round_trip(state.game_count);
    lemma_le_round_trip(state.high_score);
    assert(bytes.subrange(0, 4) =~= le_bytes(state.game_count));
    assert(bytes.subrange(4, 8) =~= le_bytes(state.high_score));
}

} // verus!
