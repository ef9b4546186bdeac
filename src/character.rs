use vstd::prelude::*;
use crate::error::GameError;

verus! {

/// An immutable description of a placeable unit.
pub struct Character {
    pub name: String,
    pub display_char: String,
    pub def: u32,
    pub att: u32,
}

impl Character {
    /// The glyph is exactly one character.
    pub open spec fn wf(&self) -> bool {
        self.display_char@.len() == 1
    }

    /// Builds a unit from a catalog record; the glyph must be a single character.
    pub fn new(name: String, display_char: String, def: u32, att: u32) -> (r: Result<Character, GameError>)
        ensures
            display_char@.len() == 1 ==> r == Ok::<Character, GameError>(
                Character { name, display_char, def, att },
            ),
            display_char@.len() != 1 ==> r == Err::<Character, GameError>(GameError::CatalogLoadFailure),
    {
        if display_char.as_str().unicode_len() == 1 {
            Ok(Character { name, display_char, def, att })
        } else {
            Err(GameError::CatalogLoadFailure)
        }
    }

    /// The sentinel that stands in every unoccupied cell.
    pub fn empty_space() -> (r: Character)
        ensures
            r.wf(),
            r.name@ == "empty"@,
            r.display_char@ == " "@,
            r.def == 0,
            r.att == 0,
    {
        proof {
            reveal_strlit(" ");
        }
        Character { name: String::from_str("empty"), display_char: String::from_str(" "), def: 0, att: 0 }
    }
}

} // verus!
