use colony_market::{hello, Status};

#[test]
fn main_page() {
    let body = hello();
    assert_eq!(Status::Success.code(), 200);
    assert_eq!(body, "Welcome to the Rusty Player Colony Market API!");
}

#[test]
fn sample_test() {
    let result = 2 + 2;
    assert_eq!(result, 4);
}
