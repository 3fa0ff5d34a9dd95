//! Which image each texture of the scene samples.

use vstd::prelude::*;

verus! {

/// The number of images the renderer creates for a scene with `num_images`
/// images: a scene without images gets one placeholder pixel.
pub open spec fn images_with_placeholder(num_images: int) -> int {
    if num_images == 0 {
        1
    } else {
        num_images
    }
}

/// The image index each texture samples: the scene's own texture list, or,
/// where the scene has no textures, a single texture on image 0. Every index
/// must name one of the images created for the scene.
pub fn texture_image_indices(num_images: usize, texture_images: &Vec<u32>) -> (r: Vec<usize>)
    requires
        forall|i: int|
            0 <= i < texture_images@.len() ==> texture_images@[i] < images_with_placeholder(
                num_images as int,
            ),
    ensures
        texture_images@.len() == 0 ==> r@ == seq![0usize],
        texture_images@.len() > 0 ==> r@.len() == texture_images@.len() && forall|i: int|
            0 <= i < r@.len() ==> r@[i] == texture_images@[i] as usize,
        forall|i: int| 0 <= i < r@.len() ==> r@[i] < images_with_placeholder(num_images as int),
{
    let mut indices: Vec<usize> = Vec::new();
    if texture_images.len() == 0 {
        indices.push(0);
        return indices;
    }
    let n = texture_images.len();
    for i in 0..n
        invariant
            n == texture_images@.len(),
            indices@.len() == i,
            forall|k: int| 0 <= k < i ==> indices@[k] == texture_images@[k] as usize,
            forall|k: int|
                0 <= k < texture_images@.len() ==> texture_images@[k] < images_with_placeholder(
                    num_images as int,
                ),
    {
        indices.push(texture_images[i] as usize);
    }
    indices
}

} // verus!
