//! Where cover images are kept, and serving them.
use vstd::prelude::*;
use crate::utils::types::{CacheResult, Image};

verus! {

broadcast use vstd::string::group_string_axioms;

/// The file that holds the cover image `id` under the image folder `dir`.
pub open spec fn image_path_text(dir: Seq<char>, id: Seq<char>) -> Seq<char> {
    dir + seq!['/'] + id + seq!['.', 'j', 'p', 'g']
}

pub fn image_path(dir: &str, id: &str) -> (r: String)
    ensures
        r@ == image_path_text(dir@, id@),
{
    let slash = "/";
    let ext = ".jpg";
    proof {
        reveal_strlit("/");
        reveal_strlit(".jpg");
    }
    let r = dir.to_string().concat(slash).concat(id).concat(ext);
    assert(r@ =~= image_path_text(dir@, id@));
    r
}

/// The cover image `id`, from the bytes read from its file (`None` when
/// there is no file).
pub fn get_image(id: &str, stored: Option<Vec<u8>>) -> (r: Option<Image>)
    ensures
        stored is None ==> r is None,
        stored matches Some(data) ==> (r matches Some(i) && i.id@ == id@ && i.data@ == data@),
{
    match stored {
        Some(data) => Some(Image::new(id, data)),
        None => None,
    }
}

/// What asking to save the cover image answers: it is refused when the file
/// exists already, otherwise the download is started.
pub fn save_image(exists: bool) -> (r: CacheResult)
    ensures
        exists ==> r.is_error && r.reason@ == "Image already exists!"@,
        !exists ==> !r.is_error && r.reason@ == "Saved image!"@,
{
    if exists {
        CacheResult::new("Image already exists!", true)
    } else {
        CacheResult::new("Saved image!", false)
    }
}

} // verus!
