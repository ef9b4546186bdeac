use vstd::prelude::*;
use crate::error::GameError;
use crate::text::{split_words, words};

verus! {

/// What a command line parses to: its three words `source verb target`, or
/// `MalformedCommand` when it holds any other number of words.
pub open spec fn command_words(line: Seq<char>) -> Result<Seq<Seq<char>>, GameError> {
    if words(line).len() == 3 {
        Ok(words(line))
    } else {
        Err(GameError::MalformedCommand)
    }
}

/// Splits a command line such as `A1 to B1` into its three words.
pub fn parse_commands(line: &str) -> (r: Result<Vec<String>, GameError>)
    ensures
        match command_words(line@) {
            Ok(ws) => r matches Ok(v) && v@.map_values(|w: String| w@) == ws,
            Err(e) => r == Err::<Vec<String>, GameError>(e),
        },
{
    let v = split_words(line);
    if v.len() != 3 {
        return Err(GameError::MalformedCommand);
    }
    Ok(v)
}

} // verus!
