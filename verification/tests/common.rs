use clinic_api::common::clamp;
use clinic_api::common::csv_to_vec_i32;
use clinic_api::common::difference_vec;
use clinic_api::common::distinct_vec;
use clinic_api::common::generate_random_number;
use clinic_api::common::generate_random_string;
use clinic_api::common::is_empty_or_whitespace;
use clinic_api::common::is_in_range;
use clinic_api::common::normalize_string;
use clinic_api::common::option_i32_or_default;
use clinic_api::common::option_string_or_default;
use clinic_api::common::str_to_int;
use clinic_api::common::vec_to_csv;

#[test]
fn test_str_to_int() {
    assert_eq!(str_to_int("123").unwrap(), 123);
    assert!(str_to_int("abc").is_err());
}

#[test]
fn test_distinct_vec() {
    let vec = vec![1, 2, 2, 3, 3, 3, 4];
    let distinct = distinct_vec(vec);
    assert_eq!(distinct.len(), 4);
}

#[test]
fn test_difference_vec() {
    let vec1 = vec![1, 2, 3, 4, 5];
    let vec2 = vec![3, 4, 5, 6, 7];
    let diff = difference_vec(vec1, vec2);
    assert_eq!(diff, vec![1, 2]);
}

#[test]
fn test_generate_random_string() {
    let s = generate_random_string(10);
    assert_eq!(s.len(), 10);
}

#[test]
fn test_is_in_range() {
    assert!(is_in_range(5, 1, 10));
    assert!(!is_in_range(11, 1, 10));
}

#[test]
fn str_to_int_takes_signs_and_leading_zeros() {
    assert_eq!(str_to_int("-17").unwrap(), -17);
    assert_eq!(str_to_int("+17").unwrap(), 17);
    assert_eq!(str_to_int("007").unwrap(), 7);
    assert_eq!(str_to_int("2147483647").unwrap(), i32::MAX);
    assert_eq!(str_to_int("-2147483648").unwrap(), i32::MIN);
}

#[test]
fn str_to_int_refuses_what_is_no_integer() {
    assert!(str_to_int("").is_err());
    assert!(str_to_int("+").is_err());
    assert!(str_to_int("-").is_err());
    assert!(str_to_int(" 1").is_err());
    assert!(str_to_int("1 ").is_err());
    assert!(str_to_int("1_000").is_err());
    assert!(str_to_int("12.5").is_err());
    assert!(str_to_int("2147483648").is_err());
    assert!(str_to_int("-2147483649").is_err());
}

#[test]
fn distinct_vec_keeps_every_value_once() {
    let mut distinct = distinct_vec(vec![5, 1, 5, 3, 1, 1]);
    distinct.sort();
    assert_eq!(distinct, vec![1, 3, 5]);
    assert_eq!(distinct_vec(Vec::<i32>::new()), Vec::<i32>::new());
    let mut words = distinct_vec(vec!["b".to_string(), "a".to_string(), "b".to_string()]);
    words.sort();
    assert_eq!(words, vec!["a".to_string(), "b".to_string()]);
}

#[test]
fn difference_vec_keeps_order_and_repeats() {
    assert_eq!(difference_vec(vec![4, 1, 4, 2, 9], vec![2, 7]), vec![4, 1, 4, 9]);
    assert_eq!(difference_vec(vec![1, 2], Vec::new()), vec![1, 2]);
    assert_eq!(difference_vec(Vec::<i32>::new(), vec![1]), Vec::<i32>::new());
    assert_eq!(difference_vec(vec![1, 1], vec![1]), Vec::<i32>::new());
}

#[test]
fn is_in_range_includes_both_ends() {
    assert!(is_in_range(1, 1, 10));
    assert!(is_in_range(10, 1, 10));
    assert!(!is_in_range(0, 1, 10));
    assert!(!is_in_range(5, 10, 1));
    assert!(is_in_range("b", "a", "c"));
}

#[test]
fn clamp_brings_a_value_into_the_range() {
    assert_eq!(clamp(5, 1, 10), 5);
    assert_eq!(clamp(0, 1, 10), 1);
    assert_eq!(clamp(11, 1, 10), 10);
    assert_eq!(clamp(1, 1, 10), 1);
    assert_eq!(clamp(10, 1, 10), 10);
    // the lower bound is looked at first
    assert_eq!(clamp(0, 10, 1), 10);
}

#[test]
fn whitespace_is_found_and_trimmed() {
    assert!(is_empty_or_whitespace(""));
    assert!(is_empty_or_whitespace(" \t\r\n"));
    assert!(is_empty_or_whitespace("\u{00A0}\u{3000}"));
    assert!(!is_empty_or_whitespace(" a "));
    assert_eq!(normalize_string("  Hello World \n"), "hello world");
    assert_eq!(normalize_string("ÄB"), "äb");
    assert_eq!(normalize_string("   "), "");
}

#[test]
fn options_fall_back_to_the_default() {
    assert_eq!(option_string_or_default(Some("x".to_string()), "d"), "x");
    assert_eq!(option_string_or_default(None, "d"), "d");
    assert_eq!(option_i32_or_default(Some(3), 9), 3);
    assert_eq!(option_i32_or_default(None, 9), 9);
}

#[test]
fn vec_to_csv_joins_with_commas() {
    assert_eq!(vec_to_csv(vec![1, 2, 3]), "1,2,3");
    assert_eq!(vec_to_csv(vec![-7]), "-7");
    assert_eq!(vec_to_csv(Vec::<i32>::new()), "");
    assert_eq!(vec_to_csv(vec!["a", "b"]), "a,b");
}

#[test]
fn csv_to_vec_i32_reads_the_numbers_and_skips_the_rest() {
    assert_eq!(csv_to_vec_i32("1,2,3"), vec![1, 2, 3]);
    assert_eq!(csv_to_vec_i32(" 1 , -2 ,+3 "), vec![1, -2, 3]);
    assert_eq!(csv_to_vec_i32("1,,x,4"), vec![1, 4]);
    assert_eq!(csv_to_vec_i32(""), Vec::<i32>::new());
    assert_eq!(csv_to_vec_i32(","), Vec::<i32>::new());
    assert_eq!(csv_to_vec_i32("2147483648,5"), vec![5]);
    assert_eq!(csv_to_vec_i32("1 2,3"), vec![3]);
}

#[test]
fn csv_round_trip_on_numbers() {
    let numbers = vec![0, -1, 2147483647, -2147483648, 42];
    assert_eq!(csv_to_vec_i32(&vec_to_csv(numbers.clone())), numbers);
}

#[test]
fn random_text_is_letters_and_digits() {
    let text = generate_random_string(200);
    assert_eq!(text.chars().count(), 200);
    assert!(text.chars().all(|c| c.is_ascii_alphanumeric()));
    assert_eq!(generate_random_string(0), "");
}

#[test]
fn random_number_lies_in_the_range() {
    for _ in 0..200 {
        let number = generate_random_number(-3, 4);
        assert!(-3 <= number && number <= 4);
    }
    assert_eq!(generate_random_number(7, 7), 7);
}
