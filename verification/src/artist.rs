//! Artists: opaque payloads constructed by the API client.

use crate::same::Same;
use crate::utils::Image;
use vstd::prelude::*;

verus! {

/// One artist, with portrait images.
#[derive(Clone, Debug, PartialEq)]
pub struct Artist {
    pub id: String,
    pub name: String,
    pub images: Vec<Image>,
}

impl Same for Artist {
    open spec fn same_spec(self, other: Self) -> bool {
        self.id.same_spec(other.id) && self.name.same_spec(other.name) && self.images.same_spec(
            other.images,
        )
    }

    fn same(&self, other: &Self) -> (r: bool) {
        self.id.same(&other.id) && self.name.same(&other.name) && self.images.same(&other.images)
    }

    proof fn same_refl(&self) {
        self.images.same_refl();
    }
}

} // verus!
