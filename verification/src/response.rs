//! The answers to the questions after the time and after the unit's health.

use crate::text::{decimal_string, decimal_text, pad_with_zeros, zero_padded};
use vstd::prelude::*;

verus! {

/// The compact JSON text of an object whose members are strings: `members`
/// holds the name and the value of each, in the order in which they are put
/// into the object.
pub uninterp spec fn json_object_text(members: Seq<(Seq<char>, Seq<char>)>) -> Seq<char>;

/// What a list of members holds.
pub open spec fn member_views(members: Seq<(String, String)>) -> Seq<(Seq<char>, Seq<char>)> {
    Seq::new(members.len(), |i: int| (members[i].0@, members[i].1@))
}

/// `serde_json::Map::insert` for each member in turn, and the `to_string` of
/// the `serde_json::Value::Object` that holds the map.  Trusted: the text
/// that comes back is the compact JSON text of that object, a function of
/// the members alone.
#[verifier::external_body]
fn json_object(members: &Vec<(String, String)>) -> (text: String)
    ensures
        text@ == json_object_text(member_views(members@)),
{
    let mut object = serde_json::Map::new();
    for (name, value) in members.iter() {
        object.insert(name.clone(), serde_json::Value::String(value.clone()));
    }
    serde_json::Value::Object(object).to_string()
}

/// The width to which a block height is written.
pub const BLOCK_HEIGHT_WIDTH: usize = 12;

/// The block height `height` as text: in decimal, with zeros before it up to
/// twelve characters.
pub open spec fn block_height_text(height: u128) -> Seq<char> {
    zero_padded(decimal_text(height as nat), BLOCK_HEIGHT_WIDTH as nat)
}

/// The answer to the question after the time: the timestamp and the height
/// of the newest block.
pub open spec fn timestamp_answer(timestamp: Seq<char>, height: u128) -> Seq<char> {
    json_object_text(
        seq![("timestamp"@, timestamp), ("block_height"@, block_height_text(height))],
    )
}

/// The answer to the question after the unit's health: the timestamp and the
/// address of the unit's wallet.
pub open spec fn health_answer(timestamp: Seq<char>, address: Seq<char>) -> Seq<char> {
    json_object_text(seq![("timestamp"@, timestamp), ("address"@, address)])
}

/// Writes the answer to the question after the time.
pub fn timestamp_response(timestamp: &str, height: u128) -> (text: String)
    ensures
        text@ == timestamp_answer(timestamp@, height),
{
    let digits = decimal_string(height);
    let height_string = pad_with_zeros(digits.as_str(), BLOCK_HEIGHT_WIDTH);
    let mut members: Vec<(String, String)> = Vec::new();
    members.push(("timestamp".to_owned(), timestamp.to_owned()));
    members.push(("block_height".to_owned(), height_string));
    assert(member_views(members@) =~= seq![
        ("timestamp"@, timestamp@),
        ("block_height"@, block_height_text(height)),
    ]);
    json_object(&members)
}

/// Writes the answer to the question after the unit's health.
pub fn health_response(timestamp: &str, address: &str) -> (text: String)
    ensures
        text@ == health_answer(timestamp@, address@),
{
    let mut members: Vec<(String, String)> = Vec::new();
    members.push(("timestamp".to_owned(), timestamp.to_owned()));
    members.push(("address".to_owned(), address.to_owned()));
    assert(member_views(members@) =~= seq![("timestamp"@, timestamp@), ("address"@, address@)]);
    json_object(&members)
}

} // verus!
