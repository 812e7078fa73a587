//! The image service: thin verified entry points over whichever image
//! backend the gateway was configured with.

use crate::errors::StoreError;
use crate::image_dao::ImageDao;
use vstd::prelude::*;

verus! {

/// Persists `image` under `id` in the configured image backend.
pub fn save_image<D: ImageDao>(dao: &mut D, id: &str, image: Vec<u8>) -> (r: Result<
    (),
    StoreError,
>)
    ensures
        r is Ok ==> final(dao).contents() == old(dao).contents().insert(id@, image@),
        r is Err ==> final(dao).contents() == old(dao).contents(),
        D::infallible() ==> r is Ok,
{
    dao.save_image(id, image)
}

/// Looks up the image stored under `id` in the configured image backend.
pub fn load_image<D: ImageDao>(dao: &D, id: &str) -> (r: Result<Option<Vec<u8>>, StoreError>)
    ensures
        r matches Ok(Some(image)) ==> dao.contents().contains_key(id@) && image@
            == dao.contents()[id@],
        r matches Ok(None) ==> !dao.contents().contains_key(id@),
        D::infallible() ==> r is Ok,
{
    dao.load_image(id)
}

} // verus!
