use std::rc::Rc;
use webserver::auth::{authenticate, Credentials};
use webserver::blog::Post;
use webserver::dice::{dice_action, dice_roll, DiceAction};
use webserver::ip_add::{IpAddr, IpAddrKind};
use webserver::pointers::{RefList, CSP};
use webserver::restaurant::{fix_incorrect_order, Breakfast};
use webserver::segmentation::grapheme_count;
use webserver::summary::{notify_two, NewsArticle, Pair, Summary, Tweet};

#[test]
fn blog_post_workflow_keeps_the_text() {
    let mut draft = Post::new();
    draft.add_text("I ate a salad for lunch today");
    let pending = draft.request_review();
    let post = pending.approve();
    assert_eq!(post.content(), "I ate a salad for lunch today");
}

#[test]
fn draft_text_accumulates_in_order() {
    let mut draft = Post::new();
    draft.add_text("first");
    draft.add_text(" second");
    let post = draft.request_review().approve();
    assert_eq!(post.content(), "first second");
}

#[test]
fn tweet_summary_names_author_and_content() {
    let tweet = Tweet {
        username: String::from("johndoe"),
        content: String::from("Hello Twitter"),
        reply: false,
        retweet: false,
    };
    assert_eq!(tweet.summarize_author(), "@johndoe");
    assert_eq!(tweet.summarize(), "@johndoe: Hello Twitter");
}

#[test]
fn article_summary_is_headline_and_author() {
    let article = NewsArticle {
        author: String::from("John Doe"),
        content: String::from("The sky is not actually falling"),
        headline: String::from("The sky is falling"),
    };
    assert_eq!(article.summarize_author(), "John Doe");
    assert_eq!(article.summarize(), "The sky is falling by:  John Doe");
    notify_two(&article, &article);
}

#[test]
fn pair_construction_succeeds() {
    let _pair = Pair::new(1, 2);
    let _words = Pair::new(String::from("a"), String::from("b"));
}

#[test]
fn dice_rule_maps_each_roll() {
    assert_eq!(dice_action(3), DiceAction::AddFancyHat);
    assert_eq!(dice_action(7), DiceAction::RemoveFancyHat);
    assert_eq!(dice_action(9), DiceAction::MovePlayer(9));
    assert_eq!(dice_action(0), DiceAction::Reroll);
    assert_eq!(dice_action(5), DiceAction::Reroll);
}

#[test]
fn dice_roll_only_ever_moves_nine_spaces() {
    for _ in 0..200 {
        if let DiceAction::MovePlayer(spaces) = dice_roll() {
            assert_eq!(spaces, 9);
        }
    }
}

#[test]
fn grapheme_count_sees_clusters_not_chars() {
    let hello = String::from("नमस्ते");
    assert_eq!(hello.chars().count(), 6);
    assert_eq!(grapheme_count(&hello), 3);
}

#[test]
fn grapheme_count_joins_carriage_return_and_newline() {
    assert_eq!(grapheme_count("a\r\nb"), 3);
    assert_eq!(grapheme_count(""), 0);
}

#[test]
fn ip_addresses_compare_by_contents() {
    let home = IpAddr::new(String::from("127.0.0.1"), IpAddrKind::V4);
    let again = IpAddr::new(String::from("127.0.0.1"), IpAddrKind::V4);
    let loopback = IpAddr::new(String::from("::1"), IpAddrKind::V6);
    assert_eq!(home, again);
    assert_ne!(home, loopback);
}

#[test]
fn breakfast_orders_run_through() {
    let mut meal = Breakfast::summer("Rye");
    meal.update_toast("Wheat");
    fix_incorrect_order();
}

#[test]
fn authenticate_accepts_credentials() {
    authenticate(Credentials {
        username: String::from("admin"),
        password: String::from("correct horse"),
    });
}

#[test]
fn smart_pointer_hands_back_its_value() {
    let pointer = CSP::new(5);
    assert_eq!(*pointer.get(), 5);
    let named = CSP::new(String::from("my stuff"));
    assert_eq!(named.get(), "my stuff");
}

#[test]
fn ref_list_tail_walks_one_step() {
    let list = RefList::Cons(5, Rc::new(RefList::Nil));
    assert!(list.tail().is_some());
    assert!(RefList::Nil.tail().is_none());
}
