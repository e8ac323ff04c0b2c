use reredis::commands::bit_commands::{bitcount, bitpos, getbit, setbit};
use reredis::commands::bitop;
use reredis::commands::get::{get, mget};
use reredis::commands::increment::{decr_by, incr_by};
use reredis::commands::set::{getset, mset};
use reredis::commands::util_commands::{echo, ping};
use reredis::types::resp_bytes::{frame_header, insert_bytes_into_vec, resp_bytes};
use reredis::sans_io::response_parser::ResponseParser;
use reredis::{Command, RedisResult, StructuredCommand};
use std::time::Duration;

fn frame<C: StructuredCommand>(command: C) -> String {
    assert!(command.is_encodable());
    String::from_utf8(command.get_bytes()).unwrap()
}

#[test]
fn a_frame_is_an_array_of_bulk_strings() {
    let items: Vec<&[u8]> = vec![b"SET", b"k", b"\x00\xFF"];
    assert_eq!(
        b"*3\r\n$3\r\nSET\r\n$1\r\nk\r\n$2\r\n\x00\xFF\r\n".to_vec(),
        resp_bytes(&items)
    );
    let none: Vec<&[u8]> = Vec::new();
    assert_eq!(b"*0\r\n".to_vec(), resp_bytes(&none));
    assert_eq!(b"*12\r\n".to_vec(), frame_header(12));
    let mut out = b"*1\r\n".to_vec();
    insert_bytes_into_vec(&mut out, b"hello world");
    assert_eq!(b"*1\r\n$11\r\nhello world\r\n".to_vec(), out);
    let mut out = Vec::new();
    insert_bytes_into_vec(&mut out, b"");
    assert_eq!(b"$0\r\n\r\n".to_vec(), out);
}

#[test]
fn lengths_count_bytes_and_not_characters() {
    assert_eq!(
        "*2\r\n$3\r\nGET\r\n$7\r\ngrüße\r\n",
        frame(get::<String, _>("grüße"))
    );
}

#[test]
fn nothing_is_escaped_in_an_argument() {
    assert_eq!(
        "*3\r\n$3\r\nSET\r\n$5\r\na b\r\n\r\n$4\r\n\"$1\"\r\n",
        frame(reredis::commands::set("a b\r\n", "\"$1\""))
    );
}

#[test]
fn a_command_by_hand_is_its_name_and_its_arguments() {
    assert_eq!("*1\r\n$4\r\nAUTH\r\n", frame(Command::cmd("AUTH")));
    assert_eq!(
        "*3\r\n$6\r\nCONFIG\r\n$3\r\nGET\r\n$4\r\nport\r\n",
        frame(Command::cmd_with_args("CONFIG", vec!["GET", "port"]))
    );
    assert_eq!(
        "*4\r\n$6\r\nEXPIRE\r\n$1\r\nk\r\n$2\r\n10\r\n$4\r\ntrue\r\n",
        frame(Command::cmd("EXPIRE").with_arg("k").with_arg(10u8).with_arg(true))
    );
}

#[test]
fn set_takes_values_of_many_types() {
    assert_eq!(
        "*3\r\n$3\r\nSET\r\n$1\r\nk\r\n$2\r\n-5\r\n",
        frame(reredis::commands::set("k", -5i64))
    );
    assert_eq!(
        "*3\r\n$3\r\nSET\r\n$1\r\nk\r\n$4\r\ntrue\r\n",
        frame(reredis::commands::set("k", true))
    );
    assert_eq!(
        "*3\r\n$3\r\nSET\r\n$2\r\n12\r\n$1\r\nv\r\n",
        frame(reredis::commands::set(12u16, "v".to_string()))
    );
}

#[test]
fn an_expiry_is_sent_in_whole_milliseconds() {
    assert_eq!(
        "*5\r\n$3\r\nSET\r\n$1\r\nk\r\n$1\r\nv\r\n$2\r\nPX\r\n$4\r\n1500\r\n",
        frame(reredis::commands::set("k", "v").with_expiry(Duration::from_micros(1500999)))
    );
    assert_eq!(
        "*5\r\n$3\r\nSET\r\n$1\r\nk\r\n$1\r\nv\r\n$2\r\nPX\r\n$1\r\n0\r\n",
        frame(reredis::commands::set("k", "v").with_expiry(Duration::from_nanos(1)))
    );
    assert_eq!(
        "*6\r\n$3\r\nSET\r\n$1\r\nk\r\n$1\r\nv\r\n$2\r\nPX\r\n$1\r\n1\r\n$2\r\nNX\r\n",
        frame(
            reredis::commands::set("k", "v")
                .if_not_exists()
                .with_expiry(Duration::from_millis(1))
        )
    );
}

#[test]
fn an_expiry_of_zero_is_turned_down() {
    let command = reredis::commands::set("k", "v");
    let command = match command.try_with_expiry(Duration::from_millis(0)) {
        Ok(_) => panic!("zero was taken"),
        Err(command) => command,
    };
    assert_eq!("*3\r\n$3\r\nSET\r\n$1\r\nk\r\n$1\r\nv\r\n", frame(command));
    let command = reredis::commands::set("k", "v")
        .try_with_expiry(Duration::from_secs(2))
        .ok()
        .unwrap();
    assert_eq!(
        "*5\r\n$3\r\nSET\r\n$1\r\nk\r\n$1\r\nv\r\n$2\r\nPX\r\n$4\r\n2000\r\n",
        frame(command)
    );
    let guarded = reredis::commands::set("k", "v").if_exists();
    assert!(guarded.try_with_expiry(Duration::from_secs(0)).is_err());
    let guarded = reredis::commands::set("k", "v").if_exists();
    assert!(guarded.try_with_expiry(Duration::from_nanos(1)).is_ok());
}

#[test]
fn getset_is_encoded_with_key_and_value() {
    assert_eq!(
        "*3\r\n$6\r\nGETSET\r\n$1\r\nk\r\n$2\r\n42\r\n",
        frame(getset::<i64, _, _>("k", 42))
    );
}

#[test]
fn get_with_a_default_is_a_plain_get() {
    assert_eq!(
        "*2\r\n$3\r\nGET\r\n$1\r\nk\r\n",
        frame(get::<i64, _>("k").with_default(7))
    );
}

#[test]
fn mset_sends_its_pairs_in_order() {
    assert_eq!("*1\r\n$4\r\nMSET\r\n", frame(mset()));
    assert_eq!(
        "*5\r\n$4\r\nMSET\r\n$1\r\na\r\n$1\r\n1\r\n$1\r\nb\r\n$1\r\n2\r\n",
        frame(mset().add("a", 1).add("b", 2))
    );
    assert_eq!(
        "*5\r\n$4\r\nMSET\r\n$1\r\nx\r\n$1\r\n8\r\n$1\r\ny\r\n$1\r\n9\r\n",
        frame(mset().add("a", 1).with_pairs(vec![("x", 8), ("y", 9)]))
    );
    assert_eq!(
        "*3\r\n$6\r\nMSETNX\r\n$1\r\na\r\n$1\r\n1\r\n",
        frame(mset().add("a", 1).if_none_exists())
    );
}

#[test]
fn mget_sends_its_keys_in_order() {
    assert_eq!("*1\r\n$4\r\nMGET\r\n", frame(mget::<i64>()));
    assert_eq!(
        "*3\r\n$4\r\nMGET\r\n$1\r\na\r\n$1\r\nb\r\n",
        frame(mget::<i64>().key("a").key("b"))
    );
    assert_eq!(
        "*4\r\n$4\r\nMGET\r\n$1\r\nx\r\n$1\r\ny\r\n$1\r\nz\r\n",
        frame(mget::<i64>().key("a").with_keys(vec!["x", "y"]).key("z"))
    );
}

#[test]
fn a_change_by_one_is_incr_or_decr() {
    assert_eq!("*2\r\n$4\r\nINCR\r\n$1\r\nk\r\n", frame(incr_by("k", 1)));
    assert_eq!("*2\r\n$4\r\nDECR\r\n$1\r\nk\r\n", frame(incr_by("k", -1)));
    assert_eq!("*2\r\n$4\r\nDECR\r\n$1\r\nk\r\n", frame(decr_by("k", 1)));
    assert_eq!("*2\r\n$4\r\nINCR\r\n$1\r\nk\r\n", frame(decr_by("k", -1)));
}

#[test]
fn the_sign_of_a_change_picks_the_command() {
    assert_eq!(
        "*3\r\n$6\r\nINCRBY\r\n$1\r\nk\r\n$3\r\n120\r\n",
        frame(incr_by("k", 120))
    );
    assert_eq!(
        "*3\r\n$6\r\nDECRBY\r\n$1\r\nk\r\n$1\r\n5\r\n",
        frame(incr_by("k", -5))
    );
    assert_eq!(
        "*3\r\n$6\r\nINCRBY\r\n$1\r\nk\r\n$1\r\n5\r\n",
        frame(decr_by("k", -5))
    );
    assert_eq!(
        "*3\r\n$6\r\nINCRBY\r\n$1\r\nk\r\n$1\r\n0\r\n",
        frame(incr_by("k", 0))
    );
    assert_eq!(
        "*3\r\n$6\r\nINCRBY\r\n$1\r\nk\r\n$1\r\n0\r\n",
        frame(decr_by("k", 0))
    );
    assert_eq!(
        "*3\r\n$6\r\nDECRBY\r\n$1\r\nk\r\n$19\r\n9223372036854775808\r\n",
        frame(incr_by("k", i64::MIN))
    );
    assert_eq!(
        "*3\r\n$6\r\nINCRBY\r\n$1\r\nk\r\n$19\r\n9223372036854775808\r\n",
        frame(decr_by("k", i64::MIN))
    );
    assert_eq!(
        "*3\r\n$6\r\nINCRBY\r\n$1\r\nk\r\n$19\r\n9223372036854775807\r\n",
        frame(incr_by("k", i64::MAX))
    );
}

#[test]
fn bits_are_sent_as_one_and_zero() {
    assert_eq!(
        "*4\r\n$6\r\nSETBIT\r\n$8\r\ntest-key\r\n$3\r\n100\r\n$1\r\n1\r\n",
        frame(setbit("test-key", 100, true))
    );
    assert_eq!(
        "*4\r\n$6\r\nSETBIT\r\n$1\r\nk\r\n$10\r\n4294967295\r\n$1\r\n0\r\n",
        frame(setbit("k", u32::MAX, false))
    );
    assert_eq!(
        "*3\r\n$6\r\nGETBIT\r\n$1\r\nk\r\n$1\r\n0\r\n",
        frame(getbit("k", 0))
    );
    assert_eq!(
        "*3\r\n$6\r\nBITPOS\r\n$1\r\nk\r\n$1\r\n1\r\n",
        frame(bitpos("k", true))
    );
    assert_eq!(
        "*3\r\n$6\r\nBITPOS\r\n$1\r\nk\r\n$1\r\n0\r\n",
        frame(bitpos("k", false))
    );
}

#[test]
fn ranges_are_sent_with_both_ends_included() {
    assert_eq!("*2\r\n$8\r\nBITCOUNT\r\n$1\r\nk\r\n", frame(bitcount("k")));
    assert_eq!(
        "*4\r\n$8\r\nBITCOUNT\r\n$1\r\nk\r\n$1\r\n0\r\n$1\r\n1\r\n",
        frame(bitcount("k").in_range(0..2))
    );
    assert_eq!(
        "*4\r\n$8\r\nBITCOUNT\r\n$1\r\nk\r\n$1\r\n0\r\n$1\r\n2\r\n",
        frame(bitcount("k").in_range(0..=2))
    );
    assert_eq!(
        "*4\r\n$8\r\nBITCOUNT\r\n$1\r\nk\r\n$2\r\n-2\r\n$2\r\n-1\r\n",
        frame(bitcount("k").in_range(-2..=-1))
    );
    assert_eq!(
        "*4\r\n$8\r\nBITCOUNT\r\n$1\r\nk\r\n$2\r\n-2\r\n$2\r\n-1\r\n",
        frame(bitcount("k").in_range(-2..0))
    );
    assert_eq!(
        "*5\r\n$6\r\nBITPOS\r\n$1\r\nk\r\n$1\r\n1\r\n$1\r\n2\r\n$1\r\n4\r\n",
        frame(bitpos("k", true).in_range(2..5))
    );
    assert_eq!(
        "*5\r\n$6\r\nBITPOS\r\n$1\r\nk\r\n$1\r\n1\r\n$1\r\n2\r\n$1\r\n5\r\n",
        frame(bitpos("k", true).in_range(2..=5))
    );
    assert_eq!(
        "*4\r\n$6\r\nBITPOS\r\n$1\r\nk\r\n$1\r\n0\r\n$1\r\n2\r\n",
        frame(bitpos("k", false).in_range(2..))
    );
}

#[test]
fn bitop_names_its_operation() {
    assert_eq!(
        "*4\r\n$5\r\nBITOP\r\n$3\r\nNOT\r\n$1\r\nd\r\n$1\r\ns\r\n",
        frame(bitop::not("d", "s"))
    );
    assert_eq!(
        "*4\r\n$5\r\nBITOP\r\n$3\r\nAND\r\n$1\r\nd\r\n$1\r\na\r\n",
        frame(bitop::and("d", "a"))
    );
    assert_eq!(
        "*5\r\n$5\r\nBITOP\r\n$2\r\nOR\r\n$1\r\nd\r\n$1\r\na\r\n$1\r\nb\r\n",
        frame(bitop::or("d", "a").with_source("b"))
    );
    assert_eq!(
        "*6\r\n$5\r\nBITOP\r\n$3\r\nXOR\r\n$1\r\nd\r\n$1\r\na\r\n$1\r\nb\r\n$1\r\nc\r\n",
        frame(bitop::xor("d", "a").with_source("b").with_source("c"))
    );
}

#[test]
fn ping_and_echo_are_encoded() {
    assert_eq!("*1\r\n$4\r\nPING\r\n", frame(ping()));
    assert_eq!("*2\r\n$4\r\nECHO\r\n$4\r\ntest\r\n", frame(echo("test")));
    assert_eq!(
        "*2\r\n$4\r\nECHO\r\n$2\r\n\u{e9}\r\n",
        frame(echo("\u{e9}".to_string()))
    );
}

#[test]
fn a_key_over_the_limit_may_not_be_encoded() {
    let large = vec![b'k'; reredis::utils::MAX_KEY_SIZE + 1];
    assert!(!get::<i64, _>(large.as_slice()).is_encodable());
    assert!(!reredis::commands::set(large.as_slice(), 1).is_encodable());
    assert!(reredis::commands::set(1, large.as_slice()).is_encodable());
    assert!(!mget::<i64>().key("a").key(large.as_slice()).is_encodable());
    assert!(!mset().add("a", 1).add(large.as_slice(), 2).is_encodable());
    assert!(mset().add("a", large.as_slice()).is_encodable());
    assert!(!bitop::and("d", "a").with_source(large.as_slice()).is_encodable());
    assert!(!bitop::not(large.as_slice(), "a").is_encodable());
    assert!(echo("a").is_encodable());
    assert!(Command::cmd("X").with_arg(large.as_slice()).is_encodable());
}

fn elements<C: StructuredCommand>(command: C) -> Vec<Vec<u8>> {
    let mut parser = ResponseParser::new();
    parser.feed(&command.get_bytes());
    let reply = parser.get_response().unwrap().unwrap();
    assert_eq!(0, parser.buffer_len());
    assert_eq!(Ok(None), parser.get_response());
    match reply {
        RedisResult::Array(items) => items
            .into_iter()
            .map(|item| match item {
                RedisResult::String(bytes) => bytes,
                other => panic!("{:?}", other),
            })
            .collect(),
        other => panic!("{:?}", other),
    }
}

fn texts(items: &[&str]) -> Vec<Vec<u8>> {
    items.iter().map(|item| item.as_bytes().to_vec()).collect()
}

#[test]
fn every_frame_decodes_to_the_name_and_the_arguments() {
    assert_eq!(texts(&["PING"]), elements(ping()));
    assert_eq!(texts(&["ECHO", "a\r\nb"]), elements(echo("a\r\nb")));
    assert_eq!(texts(&["GET", ""]), elements(get::<i64, _>("")));
    assert_eq!(
        vec![b"SET".to_vec(), vec![0, 13, 10, 255], b"$-1\r\n".to_vec()],
        elements(reredis::commands::set(
            &[0u8, 13, 10, 255],
            "$-1\r\n"
        ))
    );
    assert_eq!(
        texts(&["SET", "k", "v", "PX", "86400000", "XX"]),
        elements(
            reredis::commands::set("k", "v")
                .with_expiry(Duration::from_secs(86400))
                .if_exists()
        )
    );
    assert_eq!(
        texts(&["MSET", "a", "1", "b", "-2", "c", "true"]),
        elements(mset().add("a", 1).add("b", -2).add("c", true))
    );
    assert_eq!(
        texts(&["MGET", "a", "b", "c"]),
        elements(mget::<String>().with_keys(vec!["a", "b", "c"]))
    );
    assert_eq!(texts(&["DECRBY", "k", "7"]), elements(decr_by("k", 7)));
    assert_eq!(
        texts(&["BITPOS", "k", "0", "-4", "-2"]),
        elements(bitpos("k", false).in_range(-4..-1))
    );
    assert_eq!(
        texts(&["BITOP", "XOR", "d", "a", "b"]),
        elements(bitop::xor("d", "a").with_source("b"))
    );
    let many: Vec<String> = (0..300).map(|n| n.to_string()).collect();
    let mut expected = texts(&["MGET"]);
    expected.extend(many.iter().map(|key| key.as_bytes().to_vec()));
    assert_eq!(expected, elements(mget::<i64>().with_keys(many)));
}

#[test]
fn a_duration_is_counted_in_whole_milliseconds() {
    assert_eq!(0, reredis::commands::expiry::as_millis(&Duration::from_nanos(999_999)));
    assert_eq!(1, reredis::commands::expiry::as_millis(&Duration::from_nanos(1_000_000)));
    assert_eq!(
        1_999,
        reredis::commands::expiry::as_millis(&Duration::new(1, 999_999_999))
    );
    assert_eq!(
        18_446_744_073_709_551_615_999,
        reredis::commands::expiry::as_millis(&Duration::new(u64::MAX, 999_999_999))
    );
    assert!(reredis::commands::expiry::is_zero(&Duration::new(0, 0)));
    assert!(!reredis::commands::expiry::is_zero(&Duration::new(0, 1)));
    assert!(!reredis::commands::expiry::is_zero(&Duration::new(1, 0)));
}
