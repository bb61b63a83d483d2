use syntax_tour::find_max;

#[test]
fn test_find_max() {
    let numbers = vec![1, 5, 3, 9, 2];
    assert_eq!(find_max(&numbers), Some(9));

    let empty: Vec<i32> = vec![];
    assert_eq!(find_max(&empty), None);
}

#[test]
fn find_max_of_one_item() {
    assert_eq!(find_max(&[7u8]), Some(7u8));
    assert_eq!(find_max(&[i64::MIN]), Some(i64::MIN));
}

#[test]
fn find_max_with_maximum_first_or_last() {
    assert_eq!(find_max(&[9, 1, 2, 3]), Some(9));
    assert_eq!(find_max(&[1, 2, 3, 9]), Some(9));
    assert_eq!(find_max(&[-3, -1, -2]), Some(-1));
}

#[test]
fn find_max_with_repeated_maximum() {
    assert_eq!(find_max(&[4, 9, 9, 2, 9]), Some(9));
    assert_eq!(find_max(&[5, 5, 5]), Some(5));
}

#[test]
fn find_max_keeps_the_first_of_equal_maxima() {
    let first = find_max(&[(1u8, 'a'), (3u8, 'x'), (3u8, 'x'), (2u8, 'z')]);
    assert_eq!(first, Some((3u8, 'x')));
}

#[test]
fn find_max_is_the_same_for_every_order() {
    let orders: [[i32; 3]; 6] =
        [[1, 2, 3], [1, 3, 2], [2, 1, 3], [2, 3, 1], [3, 1, 2], [3, 2, 1]];
    for order in orders.iter() {
        assert_eq!(find_max(order), Some(3));
    }
    let mut numbers = vec![1, 5, 3, 9, 2];
    numbers.reverse();
    assert_eq!(find_max(&numbers), Some(9));
    numbers.sort();
    assert_eq!(find_max(&numbers), Some(9));
}

#[test]
fn find_max_agrees_with_the_standard_maximum() {
    let numbers: Vec<i32> = vec![17, -4, 0, 88, 88, 3, i32::MAX, i32::MIN];
    assert_eq!(find_max(&numbers), numbers.iter().copied().max());
    let bytes: Vec<u8> = vec![0, 255, 4];
    assert_eq!(find_max(&bytes), Some(255));
}

#[test]
fn find_max_of_characters() {
    assert_eq!(find_max(&['b', 'z', 'a']), Some('z'));
}

#[test]
fn find_max_has_no_result_for_an_unordered_pair() {
    let values = [1.5f64, f64::NAN, 0.5];
    assert_eq!(find_max(&values), None);
    let late = [0.5f64, 1.5, 2.5, f64::NAN];
    assert_eq!(find_max(&late), None);
    let early = [f64::NAN, 1.0];
    assert_eq!(find_max(&early), None);
}

#[test]
fn find_max_of_ordered_fractions() {
    let values = [1.5f64, -0.25, 2.75, 2.5];
    assert_eq!(find_max(&values), Some(2.75));
    let alone = [f64::NAN];
    assert!(matches!(find_max(&alone), Some(x) if x.is_nan()));
}
