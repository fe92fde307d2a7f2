//! A row of the `shows` table.
use vstd::prelude::*;
use crate::models::sea_orm_active_enums::TranslationType;

verus! {

/// One show that a search has offered, dubbed or subtitled.
#[derive(Debug, PartialEq, Eq)]
pub struct Model {
    pub id: i32,
    pub show_id: String,
    pub translation_type: TranslationType,
    pub name: String,
    pub image_url: String,
}

impl Model {
    /// A copy of the row.
    pub fn duplicate(&self) -> (r: Model)
        ensures
            r == *self,
    {
        Model {
            id: self.id,
            show_id: self.show_id.clone(),
            translation_type: self.translation_type,
            name: self.name.clone(),
            image_url: self.image_url.clone(),
        }
    }
}

} // verus!
