use rust_tour::adders;
use rust_tour::greetings;
use rust_tour::sums;

#[test]
fn exploration() {
    assert_eq!(2 + 2, 4);
}

#[test]
fn lib_it_adds_two() {
    assert_eq!(4, greetings::add_two(2));
    assert_ne!(5, greetings::add_two(2));
}

#[test]
fn it_works() -> Result<(), String> {
    if 2 + 2 == 4 {
        Ok(())
    } else {
        Err(String::from("two plus two does not equal four"))
    }
}

#[test]
fn add_two_and_two() {
    assert_eq!(4, adders::add_two(2));
}

#[test]
fn add_three_and_two() {
    assert_eq!(5, adders::add_two(3));
}

#[test]
fn one_hundred() {
    assert_eq!(102, adders::add_two(100));
}

#[test]
fn internal() {
    assert_eq!(4, sums::internal_adder(2, 2));
}

#[test]
fn integration_test_it_adds_two() {
    assert_eq!(4, sums::add_two(2));
}
