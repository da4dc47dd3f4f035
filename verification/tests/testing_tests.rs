use webserver::testing::{add_two, get_small_large_rectangle, greetings, Guess};

#[test]
fn test_it_works() {
    assert_eq!(2 + 2, 4);
}

#[test]
fn test_larger_can_hold_smaller() {
    let (larger, smaller) = get_small_large_rectangle();
    assert!(larger.can_hold(&smaller));
}

#[test]
fn test_smaller_cannot_hold_larger() {
    let (larger, smaller) = get_small_large_rectangle();
    assert!(!smaller.can_hold(&larger));
}

#[test]
fn test_add_two() {
    assert_eq!(add_two(2), 4);

    assert_ne!(add_two(2), 3);
}

#[test]
fn test_greeting_contains_name() {
    let name = "Carol";
    let result = greetings(name);
    assert!(result.contains(name))
}

#[test]
fn test_new_valid_guess() {
    let g = Guess::new(3);
    assert_eq!(g.value(), 3);

    let g = Guess::new(5);
    assert_eq!(g.value(), 5);

    let g = Guess::new(7);
    assert_eq!(g.value(), 7);
}

#[test]
fn greeting_starts_with_the_salutation() {
    assert_eq!(greetings("World"), "Hello: World");
}
