use rust_tour::counters::Counter;
use rust_tour::shoes::{shoes_in_my_size, Shoe};

#[test]
fn iterator_sum() {
    let v1 = vec![1, 2, 3];

    let v1_iter = v1.iter();

    let total: i32 = v1_iter.sum();
    assert_eq!(total, 6);
}

#[test]
fn filters_by_size() {
    let shoes = vec![
        Shoe { size: 10, style: String::from("sneaker") },
        Shoe { size: 13, style: String::from("sandal") },
        Shoe { size: 10, style: String::from("boot") },
    ];

    let in_my_size = shoes_in_my_size(shoes, 10);

    assert_eq!(
        in_my_size,
        vec![
            Shoe { size: 10, style: String::from("sneaker") },
            Shoe { size: 10, style: String::from("boot") },
        ]
    );
}

#[test]
fn calling_next_directly() {
    let mut counter = Counter::new();

    assert_eq!(counter.next(), Some(1));
    assert_eq!(counter.next(), Some(2));
    assert_eq!(counter.next(), Some(3));
    assert_eq!(counter.next(), Some(4));
    assert_eq!(counter.next(), Some(5));
    assert_eq!(counter.next(), None);
}

#[test]
fn using_other_iterator_trait_methods() {
    // Pair each number with its successor, keep the products divisible by
    // three, and sum them, driving the counters by hand.
    let mut first = Counter::new();
    let mut second = Counter::new();
    second.next();

    let mut sum: u32 = 0;
    loop {
        let a = match first.next() {
            Some(a) => a,
            None => break,
        };
        let b = match second.next() {
            Some(b) => b,
            None => break,
        };
        let product = a * b;
        if product % 3 == 0 {
            sum += product;
        }
    }
    assert_eq!(18, sum);
}
