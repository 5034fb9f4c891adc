use vstd::prelude::*;
use vstd::string::StringExecFns;
use crate::error::LifecycleError;
use crate::text::text_eq;

verus! {

/// The concrete image for a logical runtime identifier, if the identifier is supported.
pub open spec fn image_reference(id: Seq<char>) -> Option<Seq<char>> {
    if id == "nodejs"@ {
        Some("node:lts-alpine"@)
    } else {
        None
    }
}

/// Resolves a function's logical image identifier to an image the engine can pull.
/// Unknown identifiers are rejected, never passed through.
pub fn select_image(image: &str) -> (r: Result<String, LifecycleError>)
    ensures
        match image_reference(image@) {
            Some(reference) => r matches Ok(s) && s@ == reference,
            None => r matches Err(LifecycleError::UnsupportedImage(id)) && id@ == image@,
        },
{
    proof {
        reveal_strlit("nodejs");
        reveal_strlit("node:lts-alpine");
    }
    if text_eq(image, "nodejs") {
        Ok(String::from_str("node:lts-alpine"))
    } else {
        Err(LifecycleError::UnsupportedImage(String::from_str(image)))
    }
}

/// Every supported identifier resolves to a non-empty image reference.
pub proof fn lemma_supported_images_resolve(id: Seq<char>)
    requires
        image_reference(id) is Some,
    ensures
        image_reference(id).unwrap().len() > 0,
{
    reveal_strlit("node:lts-alpine");
}

} // verus!
