use std::collections::HashMap;

use nserve::discovery::{
    fd_link_path, listener_inodes, parse_tcp_table, proc_available, socket_inode, socket_port,
    tcp_table_path,
};
use nserve::files::FileRead;

const HEADING: &str = "  sl  local_address rem_address   st tx_queue rx_queue tr tm->when retrnsmt   uid  timeout inode\n";

fn row(local: &str, state: &str, inode: &str) -> String {
    format!(" 0: {local} 00000000:0000 {state} 00000000:00000000 00:00000000 00000000 1000 0 {inode} 1\n")
}

#[test]
fn parses_only_listening_tcp_rows() {
    let table = "  sl  local_address rem_address   st tx_queue rx_queue tr tm->when retrnsmt   uid  timeout inode\n\
      0: 0100007F:1770 00000000:0000 0A 00000000:00000000 00:00000000 00000000 1000 0 12345 1\n\
      1: 0100007F:0BB8 0100007F:C001 01 00000000:00000000 00:00000000 00000000 1000 0 99999 1\n";
    let mut listeners = HashMap::new();
    parse_tcp_table(table, &mut listeners);
    assert_eq!(listeners.get(&12345), Some(&6000));
    assert!(!listeners.contains_key(&99999));
}

#[test]
fn skips_the_heading_and_malformed_rows() {
    let mut listeners = HashMap::new();
    listeners.insert(1, 1);
    parse_tcp_table("", &mut listeners);
    parse_tcp_table(&row("0:1770", "0A", "5"), &mut listeners);
    for malformed in [
        row("01770", "0A", "5"),
        row("0:0000", "0A", "5"),
        row("0:10000", "0A", "5"),
        row("0:17g0", "0A", "5"),
        row("0:1770", "0a", "5"),
        row("0:1770", "0A", "-5"),
        row("0:1770", "0A", "18446744073709551616"),
        row("0:", "0A", "5"),
        "0: 0:1770 0 0A 0 0 0 0 0\n".to_owned(),
    ] {
        parse_tcp_table(&format!("{HEADING}{malformed}"), &mut listeners);
    }
    assert_eq!(listeners, HashMap::from([(1, 1)]));
}

#[test]
fn accepts_what_the_number_parser_accepts() {
    let mut listeners = HashMap::new();
    let table = format!(
        "{HEADING}{}\r\n\r\n{}{}",
        row("00:00:0000:+1f90", "0A", "+7").trim_end(),
        row("0:fFfF", "0A", "18446744073709551615"),
        row("0:0001", "0A", "7").trim_end()
    );
    parse_tcp_table(&table, &mut listeners);
    assert_eq!(listeners, HashMap::from([(7, 1), (u64::MAX, 0xffff)]));
}

#[test]
fn reads_the_inode_of_a_socket_link() {
    assert_eq!(socket_inode("socket:[12345]"), Some(12345));
    assert_eq!(socket_inode("socket:[+1]"), Some(1));
    for other in [
        "socket:[]",
        "socket:[",
        "socket:[1",
        "socket:1]",
        "pipe:[1]",
        "socket:[1]]",
        "",
        "socket:[99999999999999999999]",
    ] {
        assert_eq!(socket_inode(other), None);
    }
}

#[test]
fn missing_tables_are_passed_over() {
    let tcp6 = FileRead::Contents(format!("{HEADING}{}", row("0:1770", "0A", "5")));
    let listeners = listener_inodes(&FileRead::Missing, &tcp6).unwrap();
    assert_eq!(listeners, HashMap::from([(5, 6000)]));
    assert_eq!(
        socket_port("socket:[5]", &FileRead::Missing, &tcp6),
        Ok(Some(6000))
    );
    assert_eq!(socket_port("socket:[6]", &FileRead::Missing, &tcp6), Ok(None));
}

#[test]
fn unreadable_tables_are_an_error() {
    let broken = FileRead::Failed("denied".to_owned());
    let other = FileRead::Failed("later".to_owned());
    assert_eq!(
        listener_inodes(&FileRead::Missing, &broken),
        Err("denied".to_owned())
    );
    assert_eq!(listener_inodes(&broken, &other), Err("denied".to_owned()));
    assert_eq!(
        socket_port("socket:[5]", &broken, &other),
        Err("denied".to_owned())
    );
    assert_eq!(socket_port("/dev/null", &broken, &other), Ok(None));
}

#[test]
fn names_the_files_of_a_process() {
    assert_eq!(fd_link_path(4021, 7), "/proc/4021/fd/7");
    assert_eq!(fd_link_path(-1, 0), "/proc/-1/fd/0");
    assert_eq!(fd_link_path(i32::MIN, u32::MAX), "/proc/-2147483648/fd/4294967295");
    assert_eq!(tcp_table_path(12, "tcp6"), "/proc/12/net/tcp6");
}

#[test]
fn discovery_needs_both_files() {
    assert!(proc_available(true, true));
    assert!(!proc_available(true, false));
    assert!(!proc_available(false, true));
}
