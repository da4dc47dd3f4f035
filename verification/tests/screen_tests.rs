use webserver::screen::{join_strings, Button, Draw, Screen, SelectBox};

#[test]
fn buttons_render_their_labels_in_order() {
    let screen = Screen {
        components: vec![
            Button {
                width: 50,
                height: 10,
                label: String::from("OK"),
            },
            Button {
                width: 50,
                height: 10,
                label: String::from("Cancel"),
            },
        ],
    };
    let rendered = screen.run();
    assert_eq!(rendered, vec!["Draw Button OK", "Draw Button Cancel"]);
}

#[test]
fn select_box_renders_its_options() {
    let select_box = SelectBox {
        width: 75,
        height: 10,
        options: vec![
            String::from("Yes"),
            String::from("Maybe"),
            String::from("No"),
        ],
    };
    assert_eq!(select_box.draw(), "Draw SelectBox with options Yes, Maybe, No");
}

#[test]
fn joining_nothing_is_empty() {
    let parts: Vec<String> = Vec::new();
    assert_eq!(join_strings(&parts, ", "), "");
    let one = vec![String::from("only")];
    assert_eq!(join_strings(&one, ", "), "only");
}
