//! Save slots as the save screen lists them.

use vstd::prelude::*;

verus! {

#[derive(Debug, Clone)]
pub struct SaveListItem {
    pub id: i32,
    pub title: String,
    pub create_date: String,
    pub update_date: String,
    pub last_message: Option<String>,
    pub screenshot: Option<String>,
}

#[derive(Debug, Clone)]
pub struct SaveListResponse {
    pub saves: Vec<SaveListItem>,
    pub total: u64,
}

#[derive(Debug, Clone)]
pub struct CreateSaveResponse {
    pub save_id: i32,
    pub message: String,
}

} // verus!
