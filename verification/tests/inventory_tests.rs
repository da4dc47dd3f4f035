use webserver::inventory::{get_inventory, ShirtColor};
use webserver::shoes::{shoes_in_size, Shoe};

#[test]
fn filters_by_size() {
    let shoes = get_sample_shoes();
    let in_my_size = shoes_in_size(shoes, 10);

    assert_eq!(
        in_my_size,
        vec![
            Shoe {
                size: 10,
                style: String::from("sneaker")
            },
            Shoe {
                size: 10,
                style: String::from("boot")
            },
        ]
    );
}

fn get_sample_shoes() -> Vec<Shoe> {
    return vec![
        Shoe {
            size: 10,
            style: String::from("sneaker"),
        },
        Shoe {
            size: 13,
            style: String::from("sandal"),
        },
        Shoe {
            size: 10,
            style: String::from("boot"),
        },
    ];
}

#[test]
fn no_shoe_fits_an_unknown_size() {
    let shoes = get_sample_shoes();
    let empty: Vec<Shoe> = Vec::new();
    assert_eq!(shoes_in_size(shoes, 7), empty);
}

#[test]
fn giveaway_honours_a_preference() {
    let mut store = get_inventory();
    let given = store.giveaway(Some(ShirtColor::Red));
    assert_eq!(given, ShirtColor::Red);
    assert_eq!(store.remaining(), 2);
}

#[test]
fn giveaway_without_preference_hands_out_the_most_stocked() {
    let mut store = get_inventory();
    let given = store.giveaway(None);
    assert_eq!(given, ShirtColor::Blue);
    assert_eq!(store.remaining(), 2);
}

#[test]
fn most_stocked_prefers_the_larger_count() {
    let store = get_inventory();
    assert_eq!(store.most_stocked(), ShirtColor::Blue);
    assert_eq!(store.remaining(), 3);
}
