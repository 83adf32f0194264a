use drag::drag_image::{drag_image, get_drag_image, BitmapSize, DragImage, Image};

fn load(image: &Image<&str>, filled: i32) -> Option<DragImage<usize>> {
    get_drag_image(
        image,
        |bytes: &Vec<u8>| if bytes.is_empty() { Err(()) } else { Ok(bytes.len()) },
        |path: &&str| if path.is_empty() { Err(()) } else { Ok(100 + path.len()) },
        |bitmap: &usize| BitmapSize { filled, width: *bitmap as i32, height: 7 },
    )
}

#[test]
fn images_come_from_bytes_or_a_path() {
    let image = load(&Image::Raw(vec![1, 2, 3]), 24).unwrap();
    assert_eq!((image.bitmap, image.width, image.height), (3, 3, 7));
    let image = load(&Image::File("ab"), 24).unwrap();
    assert_eq!((image.bitmap, image.width, image.height), (102, 102, 7));
}

#[test]
fn what_cannot_be_loaded_is_no_image() {
    assert!(load(&Image::Raw(vec![]), 24).is_none());
    assert!(load(&Image::File(""), 24).is_none());
}

#[test]
fn an_unknown_size_is_128_by_128() {
    let image = load(&Image::Raw(vec![1]), 0).unwrap();
    assert_eq!((image.width, image.height), (128, 128));
}

#[test]
fn the_cursor_stands_in_the_corner_and_black_is_left_out() {
    let image = drag_image('b', BitmapSize { filled: -1, width: -2, height: 3 });
    assert_eq!((image.width, image.height), (-2, 3));
    assert_eq!((image.offset_x, image.offset_y, image.color_key), (0, 0, 0));
    assert_eq!(image.bitmap, 'b');
}
