use sysmaster_core::cmdline::{
    cmdline_get_item, cmdline_get_value, parse_boolean, parse_proc_cmdline_item,
    proc_cmdline_get_bool, proc_cmdline_parse, split_at_char,
};

#[test]
fn get_value_finds_first_pair() {
    let content = "BOOT_IMAGE=/vmlinuz ro root=/dev/sda1 root=/dev/sdb1";
    assert_eq!(cmdline_get_value(content, "root"), Some(String::from("/dev/sda1")));
    assert_eq!(cmdline_get_value(content, "BOOT_IMAGE"), Some(String::from("/vmlinuz")));
    assert_eq!(cmdline_get_value(content, "ro"), None);
    assert_eq!(cmdline_get_value(content, "missing"), None);
}

#[test]
fn get_item_matches_whole_tokens() {
    let content = "crashkernel=512M ro quiet";
    assert_eq!(cmdline_get_item(content, "crashkernel"), Some(String::from("crashkernel=512M")));
    assert_eq!(cmdline_get_item(content, "ro"), Some(String::from("ro")));
    assert_eq!(cmdline_get_item(content, "foo"), None);
}

#[test]
fn boolean_words() {
    assert_eq!(parse_boolean("yes"), Ok(true));
    assert_eq!(parse_boolean("1"), Ok(true));
    assert_eq!(parse_boolean("on"), Ok(true));
    assert_eq!(parse_boolean("0"), Ok(false));
    assert_eq!(parse_boolean("off"), Ok(false));
    assert!(parse_boolean("maybe").is_err());
}

#[test]
fn get_bool_reads_the_value() {
    assert_eq!(proc_cmdline_get_bool("quiet splash=yes", "splash"), Ok(true));
    assert_eq!(proc_cmdline_get_bool("quiet splash=no", "splash"), Ok(false));
    assert_eq!(proc_cmdline_get_bool("quiet", "splash"), Ok(false));
    assert!(proc_cmdline_get_bool("splash=sideways", "splash").is_err());
}

#[test]
fn blacklist_item_collects_modules() {
    let mut data: Vec<String> = Vec::new();
    parse_proc_cmdline_item("module_blacklist", "a,b,a", &mut data);
    assert_eq!(data, vec![String::from("a"), String::from("b")]);
    parse_proc_cmdline_item("other_key", "c", &mut data);
    assert_eq!(data.len(), 2);
    parse_proc_cmdline_item("module_blacklist", "", &mut data);
    assert_eq!(data.len(), 2);
}

#[test]
fn cmdline_pass_collects_blacklist() {
    let mut data: Vec<String> = Vec::new();
    proc_cmdline_parse("quiet module_blacklist=nouveau,radeon ro", &mut data);
    assert_eq!(data, vec![String::from("nouveau"), String::from("radeon")]);
}

#[test]
fn split_keeps_empty_pieces() {
    let pieces = split_at_char("a,,b", ',');
    assert_eq!(pieces, vec![String::from("a"), String::from(""), String::from("b")]);
    let one = split_at_char("", ',');
    assert_eq!(one, vec![String::from("")]);
}
