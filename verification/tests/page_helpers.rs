use jira_cli::ui::pages::page_helpers::get_column_string;

#[test]
fn test_get_column_string() {
    let text1 = "";
    let text2 = "test";
    let text3 = "testme";
    let text4 = "testmetest";

    let width = 0;

    assert_eq!(get_column_string(text4, width), "".to_owned());

    let width = 1;

    assert_eq!(get_column_string(text4, width), ".".to_owned());

    let width = 2;

    assert_eq!(get_column_string(text4, width), "..".to_owned());

    let width = 3;

    assert_eq!(get_column_string(text4, width), "...".to_owned());

    let width = 4;

    assert_eq!(get_column_string(text4, width), "t...".to_owned());

    let width = 6;

    assert_eq!(get_column_string(text1, width), "      ".to_owned());
    assert_eq!(get_column_string(text2, width), "test  ".to_owned());
    assert_eq!(get_column_string(text3, width), "testme".to_owned());
    assert_eq!(get_column_string(text4, width), "tes...".to_owned());
}

#[test]
fn a_text_of_the_width_stands_as_it_is() {
    assert_eq!(get_column_string("", 0), "");
    assert_eq!(get_column_string("a", 1), "a");
    assert_eq!(get_column_string("abc", 3), "abc");
}

#[test]
fn a_shorter_text_is_followed_by_spaces() {
    assert_eq!(get_column_string("", 1), " ");
    assert_eq!(get_column_string("ab", 3), "ab ");
    assert_eq!(get_column_string("ab", 12), "ab          ");
}

#[test]
fn a_narrow_column_holds_dots_only() {
    assert_eq!(get_column_string("a", 0), "");
    assert_eq!(get_column_string("ab", 1), ".");
    assert_eq!(get_column_string("abc", 2), "..");
    assert_eq!(get_column_string("abcd", 3), "...");
}

#[test]
fn a_longer_text_ends_in_three_dots() {
    assert_eq!(get_column_string("abcde", 4), "a...");
    assert_eq!(get_column_string("Hello, World!", 6), "Hel...");
    assert_eq!(get_column_string("Hello, World!", 12), "Hello, Wo...");
}

#[test]
fn the_length_is_taken_in_bytes() {
    // "héllo" has five characters in six bytes.
    assert_eq!(get_column_string("héllo", 7), "héllo ");
    assert_eq!(get_column_string("héllo", 6), "héllo");
    assert_eq!(get_column_string("héllo", 5), "hé...");
    assert_eq!(get_column_string("héllo", 4), "h...");
    // "éééé" has four characters in eight bytes: cut down to four, it is whole.
    assert_eq!(get_column_string("éééé", 7), "éééé");
    assert_eq!(get_column_string("éééé", 6), "ééé...");
}
