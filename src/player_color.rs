//! A single player colour record and its textual key.

use vstd::prelude::*;
use vstd::string::StringExecFns;
use crate::digits::{decimal, decimal_string};

verus! {

/// One player colour: the character, costume and alternative it belongs to, and the colour.
pub struct PlayerColorParam {
    pub character_id: String,
    pub costume_index: u8,
    pub alt_index: u8,
    pub red: u8,
    pub green: u8,
    pub blue: u8,
}

impl PlayerColorParam {
    /// `<character>_<costume>_<alternative>`, the two indices in decimal.
    pub fn key(&self) -> (r: String)
        ensures
            r@ == self.character_id@ + seq!['_'] + decimal(self.costume_index as nat) + seq!['_']
                + decimal(self.alt_index as nat),
    {
        proof { reveal_strlit("_"); }
        let mut s = self.character_id.clone();
        s.append("_");
        let costume = decimal_string(self.costume_index as u16);
        s.append(costume.as_str());
        s.append("_");
        let alt = decimal_string(self.alt_index as u16);
        s.append(alt.as_str());
        s
    }
}

} // verus!
