use one_ok_todo::greeting::greet;

#[test]
fn greet_world() {
    assert_eq!(greet("World"), "Hello, World! You've been greeted from Rust!");
}

#[test]
fn greet_empty_and_non_ascii() {
    assert_eq!(greet(""), "Hello, ! You've been greeted from Rust!");
    assert_eq!(greet("Zoë 世界"), "Hello, Zoë 世界! You've been greeted from Rust!");
}
