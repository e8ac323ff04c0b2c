use reredis::RBytes;

#[test]
fn it_is_possible_to_create_a_bytes_value_from_a_static_array() {
    let bytes = RBytes::from(b"this is a bytes array");

    assert_eq!(RBytes::from("this is a bytes array"), bytes);
}

#[test]
fn debug_impl_returns_a_string_if_the_string_can_be_displayed() {
    let bytes = RBytes::from("test this all works");

    assert_eq!("RBytes(b\"test this all works\")", bytes.debug_string());
}

#[test]
fn debug_impl_returns_a_bytes_array_if_the_string_cannot_be_displayed() {
    let bytes = RBytes::from(b"\xFF\xF9\x00".as_ref());

    assert_eq!("RBytes([255, 249, 0])", bytes.debug_string());
}
