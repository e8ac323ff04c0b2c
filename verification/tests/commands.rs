use reredis::commands::get::get;
use reredis::commands::increment::{decr, decr_by, incr, incr_by};
use reredis::StructuredCommand;
use std::time::Duration;

#[test]
fn get_command_converts_to_bytes_with_correct_type_specification() {
    let cmd = get::<isize, _>("test");

    assert_eq!(
        String::from_utf8(cmd.get_bytes()).unwrap(),
        "*2\r\n\
         $3\r\nGET\r\n\
         $4\r\ntest\r\n"
    )
}

#[test]
fn incr_command_increments_by_one_by_default() {
    let cmd = incr("my-first-key");

    assert_eq!(
        String::from_utf8(cmd.get_bytes()).unwrap(),
        "*2\r\n$4\r\nINCR\r\n$12\r\nmy-first-key\r\n"
    );
}

#[test]
fn incr_by_command_increments_by_other_numbers_when_given() {
    let cmd = incr_by("my-first-key", 120);

    assert_eq!(
        String::from_utf8(cmd.get_bytes()).unwrap(),
        "*3\r\n$6\r\nINCRBY\r\n$12\r\nmy-first-key\r\n$3\r\n120\r\n"
    );
}

#[test]
fn decr_by_command_decrements_by_given_value() {
    let cmd = decr_by("my-first-key", 120);

    assert_eq!(
        String::from_utf8(cmd.get_bytes()).unwrap(),
        "*3\r\n$6\r\nDECRBY\r\n$12\r\nmy-first-key\r\n$3\r\n120\r\n"
    );
}

#[test]
fn decr_command_decrements_by_one() {
    let cmd = decr("my-first-key");

    assert_eq!(
        String::from_utf8(cmd.get_bytes()).unwrap(),
        "*2\r\n$4\r\nDECR\r\n$12\r\nmy-first-key\r\n"
    );
}

#[test]
fn set_command_converts_to_bytes_with_expiry_data() {
    let cmd = reredis::commands::set("my-first-key", 42).with_expiry(Duration::from_secs(400));

    assert_eq!(
        String::from_utf8(cmd.get_bytes()).unwrap(),
        "*5\r\n\
         $3\r\nSET\r\n\
         $12\r\nmy-first-key\r\n\
         $2\r\n42\r\n\
         $2\r\nPX\r\n\
         $6\r\n400000\r\n"
    );
}

#[test]
fn set_command_can_transform_to_if_exists_format() {
    let cmd = reredis::commands::set("my-first-key", 42).if_exists();

    assert_eq!(
        String::from_utf8(cmd.get_bytes()).unwrap(),
        "*4\r\n\
         $3\r\nSET\r\n\
         $12\r\nmy-first-key\r\n\
         $2\r\n42\r\n\
         $2\r\nXX\r\n"
    );
}

#[test]
fn set_if_exists_can_have_an_optional_duration() {
    let cmd = reredis::commands::set("my-first-key", 42)
        .if_exists()
        .with_expiry(Duration::from_millis(1000));

    assert_eq!(
        String::from_utf8(cmd.get_bytes()).unwrap(),
        "*6\r\n\
         $3\r\nSET\r\n\
         $12\r\nmy-first-key\r\n\
         $2\r\n42\r\n\
         $2\r\nPX\r\n\
         $4\r\n1000\r\n\
         $2\r\nXX\r\n"
    );
}

#[test]
fn set_command_with_duration_keeps_duration_when_transformed_to_set_if_exists() {
    let cmd = reredis::commands::set("my-first-key", 42)
        .with_expiry(Duration::from_millis(1000))
        .if_exists();

    assert_eq!(
        String::from_utf8(cmd.get_bytes()).unwrap(),
        "*6\r\n\
         $3\r\nSET\r\n\
         $12\r\nmy-first-key\r\n\
         $2\r\n42\r\n\
         $2\r\nPX\r\n\
         $4\r\n1000\r\n\
         $2\r\nXX\r\n"
    );
}

#[test]
fn set_command_can_transform_to_if_not_exists_format() {
    let cmd = reredis::commands::set("my-first-key", 42).if_not_exists();

    assert_eq!(
        String::from_utf8(cmd.get_bytes()).unwrap(),
        "*4\r\n\
         $3\r\nSET\r\n\
         $12\r\nmy-first-key\r\n\
         $2\r\n42\r\n\
         $2\r\nNX\r\n"
    );
}
