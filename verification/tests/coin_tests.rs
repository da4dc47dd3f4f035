use webserver::coin::{value_in_cents, Coin, UsState};

#[test]
fn test_value_in_cents() {
    let penny = Coin::Penny;
    assert_eq!(value_in_cents(penny), 1);
    let nickel = Coin::Nickel;
    assert_eq!(value_in_cents(nickel), 5);
    let dime = Coin::Dime;
    assert_eq!(value_in_cents(dime), 10);
    let quarter = Coin::Quarter(UsState::Unknown);
    assert_eq!(value_in_cents(quarter), 25);
}

#[test]
fn every_quarter_is_worth_the_same() {
    assert_eq!(
        value_in_cents(Coin::Quarter(UsState::Alabama)),
        value_in_cents(Coin::Quarter(UsState::Alaska))
    );
}
