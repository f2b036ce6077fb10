use iced_loading_indicator::{index_offset, Index, NUMBER_OF_CIRCLES};

#[test]
fn number_of_circles_is_twelve() {
    assert_eq!(NUMBER_OF_CIRCLES, 12);
}

#[test]
fn new_index_is_zero() {
    assert_eq!(Index::new().0, 0);
}

#[test]
fn default_index_is_zero() {
    assert_eq!(Index::default().0, 0);
}

#[test]
fn tick_advances_by_one_mod_twelve() {
    for start in 0..NUMBER_OF_CIRCLES {
        let mut index = Index(start);
        index.tick();
        assert_eq!(index.0, (start + 1) % NUMBER_OF_CIRCLES);
    }
}

#[test]
fn tick_wraps_after_last_value() {
    let mut index = Index(NUMBER_OF_CIRCLES - 1);
    index.tick();
    assert_eq!(index.0, 0);
}

#[test]
fn twelve_ticks_return_to_start() {
    for start in 0..NUMBER_OF_CIRCLES {
        let mut index = Index(start);
        for _ in 0..NUMBER_OF_CIRCLES {
            index.tick();
        }
        assert_eq!(index.0, start);
    }
}

#[test]
fn index_offset_steps_behind_with_wraparound() {
    assert_eq!(index_offset(5, 0), 5);
    assert_eq!(index_offset(5, 1), 4);
    assert_eq!(index_offset(5, 5), 0);
    assert_eq!(index_offset(5, 6), 11);
    assert_eq!(index_offset(0, 1), 11);
    assert_eq!(index_offset(0, 11), 1);
    assert_eq!(index_offset(11, 11), 0);
}

#[test]
fn index_offset_matches_modular_subtraction() {
    for index in 0..NUMBER_OF_CIRCLES {
        for distance in 0..NUMBER_OF_CIRCLES {
            let r = index_offset(index, distance);
            assert!(r < NUMBER_OF_CIRCLES);
            assert_eq!(r, (index + NUMBER_OF_CIRCLES - distance) % NUMBER_OF_CIRCLES);
        }
    }
}
