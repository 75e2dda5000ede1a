use crate::movement::KeyInput;
use vstd::prelude::*;

verus! {

/// The input that a key name stands for; unknown names stand for no move.
pub open spec fn key_named(name: Seq<char>) -> KeyInput {
    if name == "up"@ {
        KeyInput::Up
    } else if name == "down"@ {
        KeyInput::Down
    } else if name == "left"@ {
        KeyInput::Left
    } else if name == "right"@ {
        KeyInput::Right
    } else if name == "test"@ {
        KeyInput::TestConstraint
    } else {
        KeyInput::NoMove
    }
}

fn same_text(a: &str, b: &str) -> (r: bool)
    ensures
        r == (a@ == b@),
{
    a.to_owned() == b.to_owned()
}

/// The input that the key name `name` stands for.
pub fn key_from_name(name: &str) -> (r: KeyInput)
    ensures
        r == key_named(name@),
{
    if same_text(name, "up") {
        KeyInput::Up
    } else if same_text(name, "down") {
        KeyInput::Down
    } else if same_text(name, "left") {
        KeyInput::Left
    } else if same_text(name, "right") {
        KeyInput::Right
    } else if same_text(name, "test") {
        KeyInput::TestConstraint
    } else {
        KeyInput::NoMove
    }
}

/// The input that a message from the user interface carries: one of kind
/// `key_press` with a key name; any other message carries none.
pub fn key_event(kind: &str, key: Option<&str>) -> (r: Option<KeyInput>)
    ensures
        r == (if kind@ == "key_press"@ && key is Some {
            Some(key_named(key.unwrap()@))
        } else {
            None
        }),
{
    if same_text(kind, "key_press") {
        match key {
            Some(name) => Some(key_from_name(name)),
            None => None,
        }
    } else {
        None
    }
}

} // verus!
