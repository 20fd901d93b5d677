use ish::ish;
use ish::BoolIsh;
use ish::Ishable;

fn true_assertions(trueish: BoolIsh) {
    assert_eq!(trueish, "true");
    assert_eq!(trueish, "True");
    assert_eq!(trueish, "TRUE");
    assert_eq!(trueish, "TRUE".to_owned());
    assert_eq!(trueish, "👍");

    assert!(trueish == Ok::<(), ()>(()));
    assert!(trueish == Some(()));

    assert_eq!(trueish, 1);
    assert_eq!(trueish, 1i8);
    assert_eq!(trueish, 1i16);
    assert_eq!(trueish, 1i32);
    assert_eq!(trueish, 1isize);
    assert_eq!(trueish, 1u8);
    assert_eq!(trueish, 1u16);
    assert_eq!(trueish, 1u32);
    assert_eq!(trueish, 1u64);
    assert_eq!(trueish, 1usize);

    assert!(trueish != "penguin");
    assert!(trueish != "false");
    assert!(trueish != "False");
    assert!(trueish != "FALSE");
    assert!(trueish != "FALSE".to_owned());
    assert!(trueish != 0);
    assert!(trueish != 0i32);
    assert!(trueish != 0i64);
    assert!(trueish != 0isize);
    assert!(trueish != 0usize);

    assert!(trueish != Err::<(), ()>(()));
    assert!(trueish != None::<()>);

    assert!("True" == trueish);
    assert!(1 == trueish);
}

#[test]
fn test_true_minus_ish() {
    let trueish = true - ish;

    true_assertions(trueish);
}

#[test]
fn test_true_dot_ish() {
    let trueish = true.ish();

    true_assertions(trueish);
}

#[test]
fn test_falseish() {
    let falseish = false - ish;

    assert_eq!(falseish, "false");
    assert_eq!(falseish, "False");
    assert_eq!(falseish, "FALSE");
    assert_eq!(falseish, "FALSE".to_owned());
    assert_eq!(falseish, 0);
    assert_eq!(falseish, "👎");
    assert_eq!(falseish, Err::<(), ()>(()));
    assert_eq!(falseish, None::<()>);

    assert!(falseish != "true");
    assert!(falseish != "True");
    assert!(falseish != "TRUE");
    assert!(falseish != "TRUE".to_owned());
    assert!(falseish != 1);
    assert!(falseish != "ferret");
    assert!(falseish != Ok::<(), ()>(()));
    assert!(falseish != Some(()));

    assert!("False" == falseish);
    assert!(0 == falseish);
}
