use route_handlers::forms::Task;
use route_handlers::forms::User;
use route_handlers::handlers::hello;
use route_handlers::handlers::hello_wave;
use route_handlers::handlers::index;
use route_handlers::handlers::item;
use route_handlers::handlers::logout;
use route_handlers::handlers::new_task;
use route_handlers::handlers::new_task_lenient;
use route_handlers::handlers::new_user;
use route_handlers::handlers::upload;
use route_handlers::handlers::upload_limit;
use route_handlers::handlers::user;
use route_handlers::handlers::user_id;
use route_handlers::handlers::user_int;
use route_handlers::handlers::user_str;

#[test]
fn index_with_message_cookie() {
    let r = index(Some(("message".to_string(), "hello".to_string())));
    assert_eq!(r, "Message: message=hello");
}

#[test]
fn index_without_cookie() {
    assert_eq!(index(None), "Hello, world!");
}

#[test]
fn hello_greets_by_name() {
    assert_eq!(hello("world".to_string()), "Hello, world!");
    assert_eq!(hello(String::new()), "Hello, !");
}

#[test]
fn hello_wave_with_and_without_name() {
    assert_eq!(hello_wave(Some("Bob".to_string())), "Hi, Bob!");
    assert_eq!(hello_wave(None), "Hello!");
}

#[test]
fn user_sets_cookie_and_greets() {
    let (cookie, body) = user(123);
    assert_eq!(cookie.name, "user_id");
    assert_eq!(cookie.value, "123");
    assert_eq!(body, "Hello (1) user 123!");
}

#[test]
fn user_int_greets_signed() {
    assert_eq!(user_int(42), "Hello (2) user 42!");
    assert_eq!(user_int(-7), "Hello (2) user -7!");
    assert_eq!(user_int(isize::MIN), format!("Hello (2) user {}!", isize::MIN));
}

#[test]
fn user_str_greets_raw_segment() {
    assert_eq!(user_str("abc"), "Hello (3) user abc!");
}

#[test]
fn user_id_reports_cookie_value() {
    assert_eq!(user_id(Some("123".to_string())), Some("User ID: 123".to_string()));
    assert_eq!(user_id(None), None);
}

#[test]
fn item_with_user() {
    let u = User { name: "Bob".to_string(), account: 307 };
    assert_eq!(item(123, Some(u)), "item 123 for user Bob aka 307!");
}

#[test]
fn item_without_user() {
    assert_eq!(item(5, None), "item 5");
}

#[test]
fn new_user_acknowledges() {
    let u = User { name: "Bob".to_string(), account: 307 };
    assert_eq!(new_user(u), "new user Bob aka 307!");
}

#[test]
fn new_task_joins_type_and_description() {
    let t = Task { description: "wash dishes".to_string(), api_type: "chore".to_string() };
    assert_eq!(new_task(t), "chore |wash dishes");
}

#[test]
fn new_task_lenient_echoes_description() {
    let t = Task { description: "wash dishes".to_string(), api_type: "chore".to_string() };
    assert_eq!(new_task_lenient(t), "Trimmed to: wash dishes");
}

#[test]
fn upload_reports_byte_count() {
    assert_eq!(upload(0), "0");
    assert_eq!(upload(256), "256");
}

#[test]
fn upload_limit_strips_nul_padding() {
    assert_eq!(upload_limit("hi\0\0\0"), "hi");
    assert_eq!(upload_limit("\0\0hi\0"), "hi");
    assert_eq!(upload_limit("a\0b"), "a\0b");
    assert_eq!(upload_limit("\0\0\0"), "");
    assert_eq!(upload_limit(""), "");
}

#[test]
fn logout_removes_cookie_and_redirects() {
    let r = logout();
    assert_eq!(r.remove_cookie, "user_id");
    assert_eq!(r.redirect, "/");
    assert_eq!(r.message, "Successfully logged out.");
}
