use webserver::grep::{search, search_case_insensitive, Config};

#[test]
fn case_sensitive() {
    let query = "duct";
    let contents = "\
Rust:
safe, fast, productive.
Pick three.
Duct tape.";

    assert_eq!(vec!["safe, fast, productive."], search(query, contents));
}

#[test]
fn case_insensitive() {
    let query = "rUsT";
    let contents = "\
Rust:
safe, fast, productive.
Pick three.
Trust me.";

    assert_eq!(
        vec!["Rust:", "Trust me."],
        search_case_insensitive(query, contents)
    );
}

#[test]
fn search_finds_nothing_in_empty_contents() {
    let empty: Vec<String> = Vec::new();
    assert_eq!(empty, search("anything", ""));
}

#[test]
fn search_keeps_all_matching_lines_in_order() {
    let contents = "one two\nthree\ntwo one\nfour";
    assert_eq!(vec!["one two", "two one"], search("one", contents));
}

#[test]
fn search_strips_carriage_returns_before_newlines() {
    let contents = "alpha\r\nbeta\r\ngamma";
    assert_eq!(vec!["alpha", "beta", "gamma"], search("a", contents));
}

#[test]
fn search_with_empty_query_matches_every_line() {
    let contents = "first\nsecond";
    assert_eq!(vec!["first", "second"], search("", contents));
}

#[test]
fn config_new_rejects_too_few_arguments() {
    let args = vec![String::from("prog"), String::from("word")];
    let result = Config::new(&args, true);
    assert_eq!(result, Err("not enough arguments. use: -- word file.txt "));
}

#[test]
fn config_new_reads_query_and_path() {
    let args = vec![
        String::from("prog"),
        String::from("needle"),
        String::from("haystack.txt"),
    ];
    let config = Config::new(&args, false).unwrap();
    assert_eq!(config.query(), "needle");
    assert_eq!(config.file_path(), "haystack.txt");
    assert!(!config.case_sensitive());
}
