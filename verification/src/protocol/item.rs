//! An item as client and server exchange it.

use crate::protocol::signature::{
    append_i64, append_text, be_bytes_i64, hashed, text_bytes, TypeSignature,
};
use vstd::prelude::*;

verus! {

#[derive(Debug, Clone)]
pub struct Item {
    pub id: Option<i64>,
    pub world_id: i64,
    pub category_id: i64,
    pub code: String,
    pub item_type: String,
    pub name: String,
    pub description: String,
    /// Free-form properties as JSON text; no rule of the library reads them.
    pub item_properties: String,
    pub base_price: i64,
    pub created_at: Option<i64>,
}

impl TypeSignature for Item {
    /// World, category, code, type, name, description and base price. The
    /// identifier, the properties and the time of creation do not count.
    open spec fn raw_signature(&self) -> Seq<u8> {
        be_bytes_i64(self.world_id) + be_bytes_i64(self.category_id) + text_bytes(self.code@)
            + text_bytes(self.item_type@) + text_bytes(self.name@) + text_bytes(self.description@)
            + be_bytes_i64(self.base_price)
    }

    fn signature(&self) -> (signature: Vec<u8>) {
        let mut raw: Vec<u8> = Vec::new();
        append_i64(&mut raw, self.world_id);
        append_i64(&mut raw, self.category_id);
        append_text(&mut raw, self.code.as_str());
        append_text(&mut raw, self.item_type.as_str());
        append_text(&mut raw, self.name.as_str());
        append_text(&mut raw, self.description.as_str());
        append_i64(&mut raw, self.base_price);
        assert(raw@ =~= self.raw_signature());
        hashed(&raw)
    }
}

} // verus!
