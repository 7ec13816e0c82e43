//! Text handling, port validation, post search, trees, recursion, and the
//! agreement of the two Fibonacci forms.

use primer::config::{load_config, validate_port, validate_port_safe, ConfigError};
use primer::fib::{fibonacci_inefficient, fibonacci_optimized};
use primer::memory::{deep_recursion, safe_recursion};
use primer::text::{get_first_word, get_first_word_safe, parse_u16, str_eq, u32_to_string};
use primer::tree::TreeNode;
use primer::user::{create_test_users, create_test_users_optimized, User};

#[test]
fn test_fibonacci_variants_agree() {
    // Naive and memoized Fibonacci agree everywhere both run; checked here
    // for every n up to 20.
    for n in 0..=20 {
        assert_eq!(fibonacci_inefficient(n), fibonacci_optimized(n));
    }
    assert_eq!(fibonacci_optimized(0), 0);
    assert_eq!(fibonacci_optimized(1), 1);
    assert_eq!(fibonacci_optimized(10), 55);
    assert_eq!(fibonacci_inefficient(20), 6765);
}

#[test]
fn test_search_matches_linear_scan() {
    // Binary search against the linear-scan oracle on a sorted list,
    // including a value below all entries and one above all entries.
    let mut user = User::new(1, "Alice".to_string(), "alice@example.com".to_string());
    for post in [2, 3, 5, 8, 13, 21] {
        user.add_post(post);
    }
    for query in 0..30 {
        assert_eq!(user.find_post(query), user.has_post(query));
    }
}

#[test]
fn test_search_empty_posts() {
    let user = User::new(1, "Bob".to_string(), "bob@example.com".to_string());
    assert!(!user.find_post(7));
    assert!(!user.has_post(7));
}

#[test]
fn test_get_all_posts_copies() {
    let mut user = User::new(1, "Cara".to_string(), "cara@example.com".to_string());
    user.add_post(4);
    user.add_post(9);
    let copy = user.get_all_posts();
    assert_eq!(copy, vec![4, 9]);
    assert_eq!(user.posts, vec![4, 9]);
}

#[test]
fn test_take_name_consumes() {
    let user = User::new(1, "Dora".to_string(), "dora@example.com".to_string());
    let name = user.take_name();
    assert_eq!(name, "Dora");
}

#[test]
fn test_create_test_users_names() {
    // The plain builder writes a space before the number; the tuned one
    // writes the compact form.
    let users = create_test_users(3);
    assert_eq!(users.len(), 3);
    assert_eq!(users[0].name, "User 0");
    assert_eq!(users[2].name, "User 2");
    assert_eq!(users[1].email, "user1@example.com");
    assert_eq!(users[1].id, 1);
    assert!(users[1].posts.is_empty());

    let tuned = create_test_users_optimized(3);
    assert_eq!(tuned.len(), 3);
    assert_eq!(tuned[2].name, "User2");
    assert_eq!(tuned[0].email, "user0@example.com");
}

#[test]
fn test_validate_port_accepts() {
    assert_eq!(validate_port("8080"), Ok(8080));
    assert_eq!(validate_port_safe("8080"), Ok(8080));
    assert_eq!(validate_port_safe("65535"), Ok(65535));
    assert_eq!(validate_port_safe("1"), Ok(1));
    // A leading plus sign is part of a valid numeral.
    assert_eq!(validate_port_safe("+8080"), Ok(8080));
    assert_eq!(validate_port("+443"), Ok(443));
}

#[test]
fn test_validate_port_rejects() {
    assert_eq!(validate_port_safe("0"), Err("port cannot be 0".to_string()));
    assert_eq!(validate_port("0"), Err("port cannot be 0".to_string()));
    assert_eq!(validate_port_safe("65536"), Err("not a valid number".to_string()));
    assert_eq!(validate_port_safe("99999"), Err("not a valid number".to_string()));
    assert_eq!(validate_port_safe("abc"), Err("not a valid number".to_string()));
    assert_eq!(validate_port_safe(""), Err("not a valid number".to_string()));
}

#[test]
fn test_parse_u16_values() {
    assert_eq!(parse_u16("0"), Some(0));
    assert_eq!(parse_u16("+80"), Some(80));
    assert_eq!(parse_u16("+0"), Some(0));
    assert_eq!(parse_u16("+"), None);
    assert_eq!(parse_u16("++1"), None);
    assert_eq!(parse_u16("-1"), None);
    assert_eq!(parse_u16("007"), Some(7));
    assert_eq!(parse_u16("65535"), Some(65535));
    assert_eq!(parse_u16("65536"), None);
    assert_eq!(parse_u16("12.34"), None);
    assert_eq!(parse_u16(""), None);
}

#[test]
fn test_load_config_success_fields() {
    let config = load_config("8080", "localhost").unwrap();
    assert_eq!(config.port, 8080);
    assert_eq!(config.host, "localhost");
    assert_eq!(config.timeout, 30);
    assert_eq!(config.debug_level, "info");
}

#[test]
fn test_load_config_error_order() {
    // An unparsable port wins over an empty host; a zero port wins too.
    assert!(matches!(load_config("abc", ""), Err(ConfigError::ParseError(_))));
    assert!(matches!(load_config("0", ""), Err(ConfigError::InvalidPort(_))));
    assert!(matches!(load_config("80", ""), Err(ConfigError::InvalidHost(_))));
}

#[test]
fn test_u32_to_string_values() {
    assert_eq!(u32_to_string(0), "0");
    assert_eq!(u32_to_string(7), "7");
    assert_eq!(u32_to_string(42), "42");
    assert_eq!(u32_to_string(1000), "1000");
    assert_eq!(u32_to_string(4294967295), "4294967295");
}

#[test]
fn test_str_eq_cases() {
    assert!(str_eq("hello", "hello"));
    assert!(!str_eq("hello", "hellO"));
    assert!(!str_eq("hello", "hell"));
    assert!(str_eq("", ""));
}

#[test]
fn test_first_word_cases() {
    assert_eq!(get_first_word_safe("Hello World"), "Hello");
    assert_eq!(get_first_word("Hello, World!"), "Hello,");
    assert_eq!(get_first_word_safe("Hello"), "Hello");
    assert_eq!(get_first_word_safe(""), "");
    assert_eq!(get_first_word_safe(" leading"), "");
}

#[test]
fn test_tree_parent_link() {
    let mut root = TreeNode::new(1);
    root.add_child(TreeNode::new(2));
    root.add_child(TreeNode::new(3));

    assert_eq!(root.children.len(), 2);
    assert_eq!(root.children[0].value, 2);
    // The attached child records its parent's label; the root itself was
    // never attached.
    assert_eq!(root.children[0].get_parent_value(), Some(1));
    assert_eq!(root.children[1].get_parent_value(), Some(1));
    assert_eq!(root.get_parent_value(), None);
}

#[test]
fn test_recursion_sums() {
    assert_eq!(safe_recursion(0), 0);
    assert_eq!(safe_recursion(1000), 500500);
    // Above the depth limit the guarded form returns its argument.
    assert_eq!(safe_recursion(1001), 1001);
    assert_eq!(safe_recursion(2000), 2000);

    assert_eq!(deep_recursion(0), 0);
    assert_eq!(deep_recursion(100), 5050);
}
