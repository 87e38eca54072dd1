use car_game::counting::count_to_5;

#[test]
fn test_counting() {
    assert_eq!(count_to_5() == 5, true);
}
