use vstd::prelude::*;

verus! {

/// Something that can be mentioned in the text of a message.
pub trait Mentionable {
    fn mention(&self) -> String;
}

} // verus!
