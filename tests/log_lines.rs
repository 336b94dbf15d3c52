use changeback::log_lines::{
    added_message, changed_message, overflow_warning_message, reset_message,
};

#[test]
fn added_message_writes_decimal() {
    assert_eq!("Added money to 0", added_message(0));
    assert_eq!("Added money to 2147483647", added_message(i32::MAX));
    assert_eq!("Added money to -2147483648", added_message(i32::MIN));
}

#[test]
fn changed_message_writes_decimal() {
    assert_eq!("Value after change 990", changed_message(990));
    assert_eq!("Value after change -7", changed_message(-7));
}

#[test]
fn fixed_messages() {
    assert_eq!("Make sure you don't overflow, my friend.", overflow_warning_message());
    assert_eq!("Reset Change to zero", reset_message());
}
