use ala_archa_backend::error::Error;
use ala_archa_backend::ipset::{Entry, IPSet};
use ala_archa_backend::time::Interval;

fn entry(ip: &str, timeout: Option<u64>, bytes: Option<usize>) -> Entry {
    Entry { ip: ip.to_string(), timeout: timeout.map(Interval::from_secs), bytes }
}

#[test]
fn a_set_knows_its_name_and_its_commands() {
    let set = IPSet::new("acl");
    assert_eq!(set.name(), "acl");
    assert_eq!(set.save_args(), vec!["save".to_string(), "acl".to_string()]);
    assert_eq!(
        set.add("10.0.0.7 timeout 60"),
        vec!["add".to_string(), "acl".to_string(), "10.0.0.7 timeout 60".to_string()]
    );
    assert_eq!(IPSet::added(true), Ok(()));
    assert_eq!(IPSet::added(false), Err(Error::IoFailure));
}

#[test]
fn a_listing_is_read_line_by_line() {
    let output = "create acl hash:ip family inet hashsize 1024 maxelem 65536 timeout 0 counters\nadd acl 10.0.0.7 timeout 3517 packets 12 bytes 4096\nadd acl 10.0.0.8\n\nadd acl 10.0.0.9 bytes 1\n";
    assert_eq!(
        IPSet::new("acl").entries(output),
        Ok(vec![
            entry("10.0.0.7", Some(3517), Some(4096)),
            entry("10.0.0.8", None, None),
            entry("10.0.0.9", None, Some(1)),
        ])
    );
    assert_eq!(IPSet::new("acl").entries(""), Ok(Vec::new()));
    assert_eq!(IPSet::new("acl").entries("create x"), Ok(Vec::new()));
}

#[test]
fn any_other_line_is_a_parse_failure() {
    let set = IPSet::new("acl");
    assert_eq!(set.entries("add acl"), Err(Error::ParseFailure));
    assert_eq!(set.entries("delete acl 10.0.0.7"), Err(Error::ParseFailure));
    assert_eq!(set.entries(" "), Err(Error::ParseFailure));
    assert_eq!(set.entries("\r\n"), Err(Error::ParseFailure));
    assert_eq!(set.entries("add acl 10.0.0.7\nbogus\nadd acl 10.0.0.8"), Err(Error::ParseFailure));
    assert_eq!(set.entries(" add acl 10.0.0.7"), Err(Error::ParseFailure));
}

#[test]
fn options_take_the_word_after_them() {
    let set = IPSet::new("acl");
    let read = |tail: &str| set.entries(&format!("add acl 1.2.3.4{}", tail)).unwrap().remove(0);
    assert_eq!(read(" timeout 5"), entry("1.2.3.4", Some(5), None));
    assert_eq!(read(" timeout +5"), entry("1.2.3.4", Some(5), None));
    assert_eq!(read(" timeout"), entry("1.2.3.4", None, None));
    assert_eq!(read(" timeout x"), entry("1.2.3.4", None, None));
    assert_eq!(read(" timeout 5 timeout x"), entry("1.2.3.4", None, None));
    assert_eq!(read(" timeout -5"), entry("1.2.3.4", None, None));
    assert_eq!(read(" timeout 18446744073709551615"), entry("1.2.3.4", Some(u64::MAX), None));
    assert_eq!(read(" timeout 18446744073709551616"), entry("1.2.3.4", None, None));
    assert_eq!(read(" timeout bytes 7"), entry("1.2.3.4", None, None));
    assert_eq!(read(" skip timeout 9 bytes 7"), entry("1.2.3.4", Some(9), Some(7)));
    assert_eq!(read(" bytes 007 comment"), entry("1.2.3.4", None, Some(7)));
    assert_eq!(read("  timeout 5"), entry("1.2.3.4", Some(5), None));
    assert_eq!(read(" timeout  5"), entry("1.2.3.4", None, None));
    assert_eq!(read(" bytes 1 bytes 2"), entry("1.2.3.4", None, Some(2)));
    assert_eq!(read(" bytes +"), entry("1.2.3.4", None, None));
    assert_eq!(read(" bytes 12a"), entry("1.2.3.4", None, None));
}

#[test]
fn the_address_is_the_third_word_whatever_it_is() {
    let set = IPSet::new("acl");
    assert_eq!(set.entries("add  x"), Ok(vec![entry("x", None, None)]));
    assert_eq!(set.entries("add other "), Ok(vec![entry("", None, None)]));
    assert_eq!(set.entries("add acl адрес"), Ok(vec![entry("адрес", None, None)]));
    assert_eq!(set.entries("add acl 10.0.0.7\r\n"), Ok(vec![entry("10.0.0.7\r", None, None)]));
}

#[test]
fn a_member_is_added_for_a_time_or_for_good() {
    let set = IPSet::new("acl");
    let text = |words: &[&str]| words.iter().map(|w| w.to_string()).collect::<Vec<_>>();
    assert_eq!(set.add_with_timeout("10.0.0.7", None), text(&["add", "acl", "10.0.0.7"]));
    assert_eq!(
        set.add_with_timeout("10.0.0.7", Some(600)),
        text(&["add", "acl", "10.0.0.7", "timeout", "600"])
    );
    assert_eq!(
        set.add_with_timeout("10.0.0.7", Some(0)),
        text(&["add", "acl", "10.0.0.7", "timeout", "0"])
    );
    assert_eq!(
        set.add_with_timeout("10.0.0.7", Some(9)),
        text(&["add", "acl", "10.0.0.7", "timeout", "9"])
    );
    assert_eq!(
        set.add_with_timeout("10.0.0.7", Some(10)),
        text(&["add", "acl", "10.0.0.7", "timeout", "10"])
    );
    assert_eq!(
        set.add_with_timeout("", Some(u64::MAX)),
        text(&["add", "acl", "", "timeout", "18446744073709551615"])
    );
}

#[test]
fn a_number_is_written_in_base_ten_at_the_end_of_a_text() {
    let mut text = "n=".to_string();
    ala_archa_backend::text::push_decimal(&mut text, 1030);
    assert_eq!(text, "n=1030");
    ala_archa_backend::text::push_decimal(&mut text, 0);
    assert_eq!(text, "n=10300");
}
