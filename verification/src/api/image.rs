use vstd::prelude::*;
use vstd::std_specs::convert::FromSpecImpl;
use crate::db::image::{Image, InsertImage};
use crate::text::clone_strings;

verus! {

/// An image, as the API shows it.
#[derive(Debug)]
pub struct ImageDto {
    pub id: i32,
    pub url: String,
    pub tags: Vec<String>,
}

/// An image, as the API takes it.
#[derive(Debug)]
pub struct ImportImageDto {
    pub url: String,
    pub tags: Vec<String>,
}

impl ImageDto {
    /// `self` shows the image `value`.
    pub open spec fn shows(&self, value: &Image) -> bool {
        &&& self.id == value.id
        &&& self.url@ == value.url@
        &&& self.tags.deep_view() == value.tags.deep_view()
    }

    /// The image `value`, as the API shows it.
    pub fn of(value: &Image) -> (dto: ImageDto)
        ensures
            dto.shows(value),
    {
        ImageDto { id: value.id, url: value.url.clone(), tags: clone_strings(&value.tags) }
    }
}

impl From<&Image> for ImageDto {
    fn from(value: &Image) -> (dto: Self) {
        ImageDto::of(value)
    }
}

/// The conversion from a borrowed image copies the tags, and a copy of a
/// vector is another vector: what holds of the result is what
/// [`ImageDto::of`] states, over the views.
impl FromSpecImpl<&Image> for ImageDto {
    open spec fn obeys_from_spec() -> bool {
        false
    }

    open spec fn from_spec(value: &Image) -> Self {
        ImageDto { id: value.id, url: value.url, tags: value.tags }
    }
}

impl From<Image> for ImageDto {
    fn from(value: Image) -> (dto: Self) {
        ImageDto { id: value.id, url: value.url, tags: value.tags }
    }
}

impl FromSpecImpl<Image> for ImageDto {
    open spec fn obeys_from_spec() -> bool {
        true
    }

    open spec fn from_spec(value: Image) -> Self {
        ImageDto { id: value.id, url: value.url, tags: value.tags }
    }
}

impl ImportImageDto {
    /// The row to store for this import.
    pub fn into_insert(self) -> (row: InsertImage)
        ensures
            row.url == self.url,
            row.tags == self.tags,
    {
        InsertImage { url: self.url, tags: self.tags }
    }
}

/// The images of a listing, each as the API shows it, in the same order.
pub fn image_dtos(images: &Vec<Image>) -> (dtos: Vec<ImageDto>)
    ensures
        dtos@.len() == images@.len(),
        forall|i: int| 0 <= i < dtos@.len() ==> (#[trigger] dtos@[i]).shows(&images@[i]),
{
    let mut dtos: Vec<ImageDto> = Vec::new();
    let mut i: usize = 0;
    while i < images.len()
        invariant
            i <= images.len(),
            dtos@.len() == i,
            forall|k: int| 0 <= k < i ==> (#[trigger] dtos@[k]).shows(&images@[k]),
        decreases images.len() - i,
    {
        dtos.push(ImageDto::of(&images[i]));
        i += 1;
    }
    dtos
}

} // verus!
