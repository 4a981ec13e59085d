use gpu_life::size::{Size, PXSIZE};

#[test]
fn grid_extent_is_the_floor_of_the_quotient() {
    let display = Size { width: 1920, height: 1080 };
    assert_eq!(display.scaled_down(4), Size { width: 480, height: 270 });
    assert_eq!(Size { width: 1923, height: 1081 }.scaled_down(4), Size { width: 480, height: 270 });
    assert_eq!(Size { width: 3, height: 4 }.scaled_down(4), Size { width: 0, height: 1 });
    assert_eq!(Size { width: 7, height: 9 }.scaled_down(1), Size { width: 7, height: 9 });
    assert_eq!(Size { width: 0, height: 0 }.scaled_down(3), Size { width: 0, height: 0 });
    assert_eq!(
        Size { width: i32::MAX, height: i32::MAX }.scaled_down(PXSIZE),
        Size { width: 536870911, height: 536870911 }
    );
}

#[test]
fn negative_extents_round_toward_zero() {
    assert_eq!(Size { width: -7, height: -8 }.scaled_down(4), Size { width: -1, height: -2 });
    assert_eq!(Size { width: -3, height: 5 }.scaled_down(4), Size { width: 0, height: 1 });
}

#[test]
fn block_factor_is_four() {
    assert_eq!(PXSIZE, 4);
}

#[test]
fn cell_count_is_the_product() {
    assert_eq!(Size { width: 480, height: 270 }.cell_count(), Some(129600));
    assert_eq!(Size { width: 0, height: 270 }.cell_count(), Some(0));
    assert_eq!(Size { width: 1, height: 1 }.cell_count(), Some(1));
    assert_eq!(Size { width: -1, height: 270 }.cell_count(), None);
    assert_eq!(Size { width: 4, height: -2 }.cell_count(), None);
    assert_eq!(Size { width: -4, height: -2 }.cell_count(), None);
    assert_eq!(
        Size { width: 65536, height: 65535 }.cell_count(),
        usize::try_from(65536u64 * 65535).ok()
    );
}
