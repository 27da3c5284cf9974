use diorama::frame::{frame_len, pixel_coords, scanout};

#[test]
fn frame_len_counts_every_pixel() {
    assert_eq!(frame_len(1300, 900), 1_170_000);
    assert_eq!(frame_len(4, 3), 12);
    assert_eq!(frame_len(0, 900), 0);
    assert_eq!(frame_len(7, 0), 0);
}

#[test]
fn pixel_coords_splits_index_into_column_and_row() {
    assert_eq!(pixel_coords(0, 4), (0, 0));
    assert_eq!(pixel_coords(3, 4), (3, 0));
    assert_eq!(pixel_coords(4, 4), (0, 1));
    assert_eq!(pixel_coords(11, 4), (3, 2));
    assert_eq!(pixel_coords(1_169_999, 1300), (1299, 899));
    assert_eq!(pixel_coords(1301, 1300), (1, 1));
}

#[test]
fn pixel_coords_single_column() {
    assert_eq!(pixel_coords(5, 1), (0, 5));
}

#[test]
fn scanout_walks_rows_top_to_bottom_left_to_right() {
    let scratch: Vec<u8> = vec![10, 11, 12, 20, 21, 22];
    let writes = scanout(&scratch, 3, 2);
    assert_eq!(
        writes,
        vec![(0, 0, 10), (1, 0, 11), (2, 0, 12), (0, 1, 20), (1, 1, 21), (2, 1, 22)]
    );
}

#[test]
fn scanout_places_each_pixel_at_its_traced_coordinates() {
    let width: u32 = 5;
    let height: u32 = 4;
    let scratch: Vec<u32> = (0..width * height).map(|i| i * 7 + 1).collect();
    let writes = scanout(&scratch, width, height);
    assert_eq!(writes.len(), (width * height) as usize);
    for (k, &(x, y, p)) in writes.iter().enumerate() {
        assert_eq!(pixel_coords(k as u32, width), (x, y));
        assert_eq!(p, scratch[(y * width + x) as usize]);
    }
}

#[test]
fn scanout_of_empty_frames() {
    let empty: Vec<u8> = Vec::new();
    assert!(scanout(&empty, 0, 5).is_empty());
    assert!(scanout(&empty, 5, 0).is_empty());
}

#[test]
fn scanout_single_row_and_single_column() {
    let row: Vec<char> = vec!['a', 'b', 'c'];
    assert_eq!(scanout(&row, 3, 1), vec![(0, 0, 'a'), (1, 0, 'b'), (2, 0, 'c')]);
    assert_eq!(scanout(&row, 1, 3), vec![(0, 0, 'a'), (0, 1, 'b'), (0, 2, 'c')]);
}
