//! The image that follows the cursor during a drag.

use vstd::prelude::*;

verus! {

/// Where the image of a drag comes from: the bytes of an image file, or the path of one.
pub enum Image<F> {
    Raw(Vec<u8>),
    File(F),
}

/// The image of a drag: the bitmap, its size, where the cursor stands in it, and the color that
/// is left out.
pub struct DragImage<H> {
    pub width: i32,
    pub height: i32,
    pub offset_x: i32,
    pub offset_y: i32,
    pub bitmap: H,
    pub color_key: u32,
}

/// The answer of the system to the question for the size of a bitmap: how many bytes it filled
/// in, none where it failed, and the width and the height in them.
#[derive(Clone, Copy, Debug, PartialEq, Eq, Structural)]
pub struct BitmapSize {
    pub filled: i32,
    pub width: i32,
    pub height: i32,
}

/// The drag image of a bitmap. The cursor stands at its upper left corner, and black is left out;
/// a bitmap whose size is not known counts as 128 by 128.
pub open spec fn image_of<H>(bitmap: H, size: BitmapSize) -> DragImage<H> {
    DragImage {
        width: if size.filled == 0 {
            128
        } else {
            size.width
        },
        height: if size.filled == 0 {
            128
        } else {
            size.height
        },
        offset_x: 0,
        offset_y: 0,
        bitmap,
        color_key: 0,
    }
}

/// Whether `image` is the drag image of a bitmap that was loaded, of the size that `measure` gave
/// for it, or none where it was not loaded.
pub open spec fn shows<H, E, M: Fn(&H) -> BitmapSize>(
    image: Option<DragImage<H>>,
    loaded: Result<H, E>,
    measure: M,
) -> bool {
    match loaded {
        Ok(bitmap) => exists|size: BitmapSize|
            #[trigger] call_ensures(measure, (&bitmap,), size) && image == Some(
                image_of(bitmap, size),
            ),
        Err(_) => image is None,
    }
}

/// A drag image shows its bitmap in the size that the system filled in, whatever the width and
/// the height; only where it filled in nothing does 128 by 128 stand in for it. The cursor stands
/// in the corner, and black is left out.
pub proof fn law_images_keep_their_size<H>(bitmap: H, size: BitmapSize)
    ensures
        size.filled != 0 ==> image_of(bitmap, size).width == size.width && image_of(
            bitmap,
            size,
        ).height == size.height,
        size.filled == 0 ==> image_of(bitmap, size).width == 128 && image_of(bitmap, size).height
            == 128,
        image_of(bitmap, size).bitmap == bitmap,
        image_of(bitmap, size).offset_x == 0 && image_of(bitmap, size).offset_y == 0,
        image_of(bitmap, size).color_key == 0,
{
}

/// The image of a bitmap that was loaded is there, shows this bitmap, and has a size that the
/// system may give for it. A bitmap that was not loaded has no image.
pub proof fn law_loaded_images_are_shown<H, E, M: Fn(&H) -> BitmapSize>(
    image: Option<DragImage<H>>,
    loaded: Result<H, E>,
    measure: M,
)
    requires
        shows(image, loaded, measure),
    ensures
        image is Some <==> loaded is Ok,
        loaded matches Ok(bitmap) ==> {
            &&& image->0.bitmap == bitmap
            &&& exists|size: BitmapSize|
                #[trigger] call_ensures(measure, (&bitmap,), size) && (if size.filled == 0 {
                    image->0.width == 128 && image->0.height == 128
                } else {
                    image->0.width == size.width && image->0.height == size.height
                })
        },
{
    if let Ok(bitmap) = loaded {
        let size = choose|size: BitmapSize|
            #[trigger] call_ensures(measure, (&bitmap,), size) && image == Some(
                image_of(bitmap, size),
            );
        law_images_keep_their_size(bitmap, size);
    }
}

/// Makes the drag image of a bitmap.
pub fn drag_image<H>(bitmap: H, size: BitmapSize) -> (image: DragImage<H>)
    ensures
        image == image_of(bitmap, size),
        image.bitmap == bitmap,
        size.filled != 0 ==> image.width == size.width && image.height == size.height,
        size.filled == 0 ==> image.width == 128 && image.height == 128,
{
    let (width, height): (i32, i32) = if size.filled == 0 {
        (128, 128)
    } else {
        (size.width, size.height)
    };
    DragImage { width, height, offset_x: 0, offset_y: 0, bitmap, color_key: 0 }
}

/// Loads the image of a drag, from its bytes with `read_bytes` or from its path with `read_path`,
/// and asks `measure` for its size. An image that cannot be loaded is no image.
pub fn get_drag_image<F, H, E, B, R, M>(
    image: &Image<F>,
    read_bytes: B,
    read_path: R,
    measure: M,
) -> (drag_image: Option<DragImage<H>>) where
    B: Fn(&Vec<u8>) -> Result<H, E>,
    R: Fn(&F) -> Result<H, E>,
    M: Fn(&H) -> BitmapSize,

    requires
        match image {
            Image::Raw(bytes) => call_requires(read_bytes, (bytes,)) && forall|bitmap: H|
                call_ensures(read_bytes, (bytes,), Ok::<H, E>(bitmap))
                    ==> #[trigger] call_requires(measure, (&bitmap,)),
            Image::File(path) => call_requires(read_path, (path,)) && forall|bitmap: H|
                call_ensures(read_path, (path,), Ok::<H, E>(bitmap))
                    ==> #[trigger] call_requires(measure, (&bitmap,)),
        },
    ensures
        match image {
            Image::Raw(bytes) => exists|loaded: Result<H, E>|
                #[trigger] call_ensures(read_bytes, (bytes,), loaded) && shows(
                    drag_image,
                    loaded,
                    measure,
                ),
            Image::File(path) => exists|loaded: Result<H, E>|
                #[trigger] call_ensures(read_path, (path,), loaded) && shows(
                    drag_image,
                    loaded,
                    measure,
                ),
        },
{
    let loaded = match image {
        Image::Raw(bytes) => read_bytes(bytes),
        Image::File(path) => read_path(path),
    };
    match loaded {
        Ok(bitmap) => {
            let size = measure(&bitmap);
            Some(self::drag_image(bitmap, size))
        },
        Err(_) => None,
    }
}

} // verus!
