//! Conversions between API records and stored records.
use crate::bitskins::{db, http};
use vstd::prelude::*;

verus! {

impl From<http::Skin> for db::Skin {
    fn from(skin: http::Skin) -> (r: db::Skin) {
        db::Skin {
            id: skin.id,
            name: skin.name,
            class_id: skin.class_id,
            suggested_price: skin.suggested_price,
        }
    }
}

impl vstd::std_specs::convert::FromSpecImpl<http::Skin> for db::Skin {
    open spec fn obeys_from_spec() -> bool {
        true
    }

    open spec fn from_spec(skin: http::Skin) -> db::Skin {
        db::Skin {
            id: skin.id,
            name: skin.name,
            class_id: skin.class_id,
            suggested_price: skin.suggested_price,
        }
    }
}

} // verus!
