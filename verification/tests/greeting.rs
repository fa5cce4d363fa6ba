use app_shell::greeting::greet;

#[test]
fn greet_formats_name() {
    assert_eq!(greet("World"), "Hello, World! You've been greeted from Rust!");
}

#[test]
fn greet_empty_name() {
    assert_eq!(greet(""), "Hello, ! You've been greeted from Rust!");
}

#[test]
fn greet_non_ascii_name() {
    assert_eq!(greet("Grüße 世界"), "Hello, Grüße 世界! You've been greeted from Rust!");
}

#[test]
fn greet_never_fails_on_odd_input() {
    assert_eq!(
        greet("a\nb\t\"c\""),
        "Hello, a\nb\t\"c\"! You've been greeted from Rust!"
    );
}
