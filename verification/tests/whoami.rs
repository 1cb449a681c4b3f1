use wrangler::whoami::{
    account_table, describe_auth, first_unprintable, is_admissible, list_accounts, login_notice,
    Account, GlobalUser, Unprintable,
};

fn key_user() -> GlobalUser {
    GlobalUser::GlobalKeyAuth {
        email: String::from("user@example.com"),
        api_key: String::from("0123456789abcdef"),
    }
}

fn token_user() -> GlobalUser {
    GlobalUser::TokenAuth { api_token: String::from("tok") }
}

fn account(name: &str, id: &str) -> Account {
    Account { name: String::from(name), id: String::from(id) }
}

#[test]
fn key_is_described_with_its_email() {
    assert_eq!(
        describe_auth(&key_user()),
        "a Global API Key, associated with the email 'user@example.com'"
    );
}

#[test]
fn token_is_described_without_detail() {
    assert_eq!(describe_auth(&token_user()), "an API Token");
}

#[test]
fn greeting_wraps_the_description_in_empty_lines() {
    assert_eq!(
        login_notice("*", &token_user()),
        "\n* You are logged in with an API Token.\n"
    );
    assert_eq!(
        login_notice("hi", &key_user()),
        "\nhi You are logged in with a Global API Key, associated with the email 'user@example.com'.\n"
    );
}

#[test]
fn table_of_no_accounts_is_the_heading() {
    let expected = "\
+--------------+------------+
| Account Name | Account ID |
+--------------+------------+
";
    assert_eq!(account_table(&vec![]), Ok(String::from(expected)));
}

#[test]
fn table_lists_accounts_in_order() {
    let accounts = vec![account("Alice", "a1"), account("Bob's Company Ltd", "0123456789abcdef")];
    let expected = "\
+-------------------+------------------+
| Account Name      | Account ID       |
+-------------------+------------------+
| Alice             | a1               |
+-------------------+------------------+
| Bob's Company Ltd | 0123456789abcdef |
+-------------------+------------------+
";
    assert_eq!(account_table(&accounts), Ok(String::from(expected)));
}

#[test]
fn cell_keeps_the_lines_of_its_text() {
    let accounts = vec![account("two\nlines\n", "x")];
    let expected = "\
+--------------+------------+
| Account Name | Account ID |
+--------------+------------+
| two          | x          |
| lines        |            |
+--------------+------------+
";
    assert_eq!(account_table(&accounts), Ok(String::from(expected)));
}

#[test]
fn texts_without_control_sequences_are_admissible() {
    for text in ["", "plain", "two\nlines", "[31m not a sequence", "\u{644}\u{627}\u{644}\u{627}"] {
        assert!(is_admissible(text));
    }
}

#[test]
fn escape_characters_alone_do_not_hinder() {
    for text in [
        "\u{1b}",
        "\u{1b}[",
        "\u{1b}x[m",
        "\u{1b}[31mred\u{1b}[0m",
        "bad \u{1b}[\u{301}\u{301}m",
        "\u{1b}[\u{644}\u{627}",
    ] {
        assert!(is_admissible(text));
    }
}

#[test]
fn sequence_with_more_to_count_off_than_its_width_is_refused() {
    assert!(!is_admissible("\u{1b}[\u{644}\u{627}\u{644}\u{627}"));
    assert!(!is_admissible("\u{1b}[\u{644}\u{627}\u{644}\u{627}m"));
    assert!(!is_admissible("fine\n\u{1b}[\u{644}\u{627}\u{644}\u{627}\nfine"));
    assert!(is_admissible("\u{1b}[\u{644}\u{627}\u{644}\u{627}m and enough behind it"));
}

#[test]
fn table_is_drawn_for_a_name_that_is_an_escape_character() {
    let accounts = vec![account("\u{1b}", "4")];
    let expected = "\
+--------------+------------+
| Account Name | Account ID |
+--------------+------------+
| \u{1b}            | 4          |
+--------------+------------+
";
    assert_eq!(first_unprintable(&accounts), None);
    assert_eq!(account_table(&accounts), Ok(String::from(expected)));
    let listing = list_accounts(&token_user(), &accounts).unwrap();
    assert_eq!(listing.notice, None);
    assert_eq!(listing.table, expected);
}

#[test]
fn table_is_drawn_for_a_coloured_name() {
    let accounts = vec![account("\u{1b}[31mred\u{1b}[0m", "a1")];
    let expected = "\
+--------------+------------+
| Account Name | Account ID |
+--------------+------------+
| \u{1b}[31mred\u{1b}[0m        | a1         |
+--------------+------------+
";
    assert_eq!(account_table(&accounts), Ok(String::from(expected)));
}

#[test]
fn account_that_cannot_be_measured_is_refused() {
    let accounts = vec![
        account("fine", "1"),
        account("\u{1b}", "2"),
        account("\u{1b}[\u{644}\u{627}\u{644}\u{627}", "3"),
        account("4", "\u{1b}[\u{644}\u{627}\u{644}\u{627}"),
    ];
    assert_eq!(first_unprintable(&accounts), Some(2));
    assert_eq!(account_table(&accounts), Err(Unprintable { row: 2 }));
    assert!(matches!(list_accounts(&key_user(), &accounts), Err(Unprintable { row: 2 })));
    let in_id = vec![account("fine", "\u{1b}[\u{644}\u{627}\u{644}\u{627}")];
    assert_eq!(account_table(&in_id), Err(Unprintable { row: 0 }));
}

#[test]
fn measurable_accounts_are_all_accepted() {
    let accounts = vec![account("fine", "1"), account("[31m not a sequence", "2")];
    assert_eq!(first_unprintable(&accounts), None);
    assert_eq!(first_unprintable(&vec![]), None);
}

#[test]
fn token_without_accounts_gets_the_permission_note() {
    let listing = list_accounts(&token_user(), &vec![]).unwrap();
    assert_eq!(
        listing.notice,
        Some(String::from(
            "Your token is missing the 'Account Settings: Read' permission.\n\nPlease generate and auth with a new token that has these perms to be able to list your accounts.\n"
        ))
    );
    assert_eq!(Ok(listing.table), account_table(&vec![]));
}

#[test]
fn key_without_accounts_gets_no_note() {
    let listing = list_accounts(&key_user(), &vec![]).unwrap();
    assert_eq!(listing.notice, None);
    assert_eq!(Ok(listing.table), account_table(&vec![]));
}

#[test]
fn token_with_accounts_gets_no_note() {
    let accounts = vec![account("Alice", "a1")];
    let listing = list_accounts(&token_user(), &accounts).unwrap();
    assert_eq!(listing.notice, None);
    assert_eq!(Ok(listing.table), account_table(&accounts));
}
