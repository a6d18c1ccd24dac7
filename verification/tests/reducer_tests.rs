use rzd_coupe::reducer::{parse_bound, parse_token, reduce, reduce_car, token_blocks};
use rzd_coupe::rzd::GetRZDTrainsCarriagesCars;
use rzd_coupe::text::split_str;

fn carriage_car(places: &str, cnumber: &str, car_type: &str) -> GetRZDTrainsCarriagesCars {
    GetRZDTrainsCarriagesCars {
        places: split_str(places, ','),
        cnumber: cnumber.to_string(),
        _type: car_type.to_string(),
    }
}

#[test]
fn range_21_28_gives_two_blocks() {
    assert_eq!(token_blocks("21-28"), vec![(21, 24), (25, 28)]);
}

#[test]
fn range_1_4_gives_one_block() {
    assert_eq!(token_blocks("1-4"), vec![(1, 4)]);
}

#[test]
fn range_22_25_gives_no_block() {
    assert_eq!(token_blocks("22-25"), Vec::<(u32, u32)>::new());
}

#[test]
fn inverted_range_is_dropped_without_error() {
    assert_eq!(token_blocks("28-21"), Vec::<(u32, u32)>::new());
    assert_eq!(token_blocks("2-1"), Vec::<(u32, u32)>::new());
}

#[test]
fn letter_suffixes_are_stripped() {
    assert_eq!(parse_bound("21\u{0410}"), Some(21));
    assert_eq!(parse_bound("8b"), Some(8));
    assert_eq!(token_blocks("21\u{0410}-28\u{0411}"), vec![(21, 24), (25, 28)]);
}

#[test]
fn malformed_tokens_give_nothing() {
    assert_eq!(token_blocks(""), Vec::<(u32, u32)>::new());
    assert_eq!(token_blocks("1-2-3"), Vec::<(u32, u32)>::new());
    assert_eq!(token_blocks("abc-5"), Vec::<(u32, u32)>::new());
    assert_eq!(token_blocks("5-abc"), Vec::<(u32, u32)>::new());
    assert_eq!(token_blocks("17"), Vec::<(u32, u32)>::new());
    assert_eq!(parse_token("1x2-5"), None);
}

#[test]
fn bound_parsing_needs_leading_digits() {
    assert_eq!(parse_bound("123"), Some(123));
    assert_eq!(parse_bound(""), None);
    assert_eq!(parse_bound("x12"), None);
    assert_eq!(parse_bound("1234567890"), None);
}

#[test]
fn only_compartment_cars_are_reduced() {
    let cars = vec![
        carriage_car("1-8", "01", "\u{041a}\u{0443}\u{043f}\u{0435}"),
        carriage_car("1-8", "02", "\u{041f}\u{043b}\u{0430}\u{0446}"),
    ];
    let blocks = reduce(&cars);
    assert_eq!(blocks.len(), 2);
    assert!(blocks.iter().all(|b| b.car_number == "01"));
    assert_eq!(blocks[0].first_seat, 1);
    assert_eq!(blocks[0].last_seat, 4);
    assert_eq!(blocks[1].first_seat, 5);
    assert_eq!(blocks[1].last_seat, 8);
}

#[test]
fn car_type_comparison_is_case_insensitive() {
    // "КУПЕ" in upper case must still count as the compartment class.
    let car = carriage_car("1-4", "09", "\u{041a}\u{0423}\u{041f}\u{0415}");
    let blocks = reduce_car(&car);
    assert_eq!(blocks.len(), 1);
    assert_eq!(blocks[0].car_number, "09");
}

#[test]
fn blocks_from_several_tokens_keep_token_order() {
    let car = carriage_car("21-28,1-4", "05", "\u{043a}\u{0443}\u{043f}\u{0435}");
    let blocks = reduce_car(&car);
    let pairs: Vec<(u32, u32)> = blocks.iter().map(|b| (b.first_seat, b.last_seat)).collect();
    assert_eq!(pairs, vec![(21, 24), (25, 28), (1, 4)]);
}
