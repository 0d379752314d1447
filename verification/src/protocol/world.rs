//! A game world as client and server exchange it.

use crate::protocol::signature::{append_text, hashed, text_bytes, TypeSignature};
use vstd::prelude::*;

verus! {

#[derive(Debug, Clone)]
pub struct World {
    pub id: Option<i64>,
    pub name: String,
    pub description: String,
}

impl TypeSignature for World {
    /// The name, then the description.
    open spec fn raw_signature(&self) -> Seq<u8> {
        text_bytes(self.name@) + text_bytes(self.description@)
    }

    fn signature(&self) -> (signature: Vec<u8>) {
        let mut raw: Vec<u8> = Vec::new();
        append_text(&mut raw, self.name.as_str());
        append_text(&mut raw, self.description.as_str());
        assert(raw@ =~= self.raw_signature());
        hashed(&raw)
    }
}

} // verus!
