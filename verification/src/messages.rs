//! A message enum whose variants carry differently shaped data.

use vstd::prelude::*;

verus! {

/// A message: a bare signal, a struct-like move, a text payload, or a
/// colour triple.
#[derive(Debug)]
pub enum Message {
    Quit,
    Move { x: i32, y: i32 },
    Write(String),
    ChangeColor(i32, i32, i32),
}

impl Message {
    /// Delivers the message.  Delivery has no observable effect here; the
    /// method exists so every variant can be called through one receiver.
    pub fn call(&self) {
    }
}

} // verus!
