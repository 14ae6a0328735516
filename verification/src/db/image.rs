use vstd::prelude::*;

verus! {

/// A stored image.
#[derive(Debug)]
pub struct Image {
    pub id: i32,
    pub url: String,
    pub tags: Vec<String>,
}

/// An image to store.
#[derive(Debug)]
pub struct InsertImage {
    pub url: String,
    pub tags: Vec<String>,
}

} // verus!
