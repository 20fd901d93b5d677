use ish::ish;

#[test]
fn test_fuzzify_true_against_casing() {
    assert!(true - ish == "TRUE");
    assert!(true - ish != "FALSE");
}

#[test]
fn test_fuzzify_false_easter_egg() {
    assert!(false - ish == "norway");
    assert!(false - ish != "banana");
}

#[test]
fn test_fuzzify_against_integers() {
    assert!(true - ish == 1);
    assert!(true - ish != 0);
    assert!(false - ish == 0);
    assert!(false - ish != 1);
}

#[test]
fn test_fuzzify_against_results() {
    assert!(true - ish == Ok::<(), ()>(()));
    assert!(true - ish != Err::<(), ()>(()));
}

#[test]
fn test_option_and_result_mapping() {
    assert!(true - ish == Some(5));
    assert!(true - ish == Some("anything"));
    assert!(true - ish == Ok::<i32, String>(42));
    assert!(false - ish == None::<i32>);
    assert!(false - ish == Err::<i32, String>("boom".to_owned()));
    assert!(false - ish != Some(0));
    assert!(true - ish != None::<&str>);
}

#[test]
fn test_symmetry_of_comparison() {
    assert_eq!(true - ish == "True", "True" == true - ish);
    assert_eq!(false - ish == "True", "True" == false - ish);
    assert_eq!(true - ish == 1, 1 == true - ish);
    assert_eq!(false - ish == 7, 7 == false - ish);
    assert_eq!(true - ish == "TRUE".to_owned(), "TRUE".to_owned() == true - ish);
    assert!("yup" == true - ish);
    assert!(0u8 == false - ish);
}

#[test]
fn test_integer_widths() {
    assert!(true - ish == 1i8 && true - ish != 2i8 && true - ish != -1i8);
    assert!(true - ish == 1i16 && true - ish != 0i16);
    assert!(true - ish == 1i32 && true - ish != -1i32);
    assert!(true - ish == 1i64 && true - ish != i64::MAX);
    assert!(true - ish == 1isize && true - ish != 0isize);
    assert!(true - ish == 1u8 && true - ish != 255u8);
    assert!(true - ish == 1u16 && true - ish != 0u16);
    assert!(true - ish == 1u32 && true - ish != u32::MAX);
    assert!(true - ish == 1u64 && true - ish != u64::MAX);
    assert!(true - ish == 1usize && true - ish != usize::MAX);
    assert!(false - ish == 0i8 && false - ish != 1i8);
    assert!(false - ish == -1i64 && false - ish != 1i64);
    assert!(false - ish == u64::MAX && false - ish != 1u64);
    assert!(false - ish == usize::MAX && false - ish != 1usize);
}
