use procps_marshal::cstr::DecodeError;
use procps_marshal::pwcache::{get_group, get_user};
use procps_marshal::wchan::{lookup_wchan_str, lookup_wchan_string};
use procps_marshal::whattime::{get_uptime_str, get_uptime_string};

#[test]
fn whattime() {
    let uptime_stdout = " 10:32:01 up 3 days,  2 users,  load average: 0.10, 0.05, 0.01";
    let pretty_uptime_stdout = "up 3 days, 4 hours, 12 minutes";

    let human = b"up 3 days, 4 hours, 12 minutes\0";
    let machine = b" 10:32:01 up 3 days,  2 users,  load average: 0.10, 0.05, 0.01\0";

    assert_eq!(get_uptime_str(human).unwrap(), pretty_uptime_stdout);
    assert_eq!(get_uptime_string(machine).unwrap(), uptime_stdout);
}

#[test]
fn uptime_line_is_not_reformatted() {
    let raw = b"  up  1 min,\t0 users \0";
    assert_eq!(get_uptime_str(raw), Ok("  up  1 min,\t0 users "));
    assert_eq!(get_uptime_string(raw), Ok(String::from("  up  1 min,\t0 users ")));
}

#[test]
fn uptime_line_failures() {
    assert_eq!(get_uptime_str(b"up 3 days"), Err(DecodeError::NotTerminated));
    assert_eq!(get_uptime_string(b"up \xa0 days\0"), Err(DecodeError::InvalidUtf8));
}

#[test]
fn user_and_group_names() {
    assert_eq!(get_user(b"root\0"), Ok(String::from("root")));
    assert_eq!(get_user(b"1000\0"), Ok(String::from("1000")));
    assert_eq!(get_group(b"wheel\0"), Ok(String::from("wheel")));
    assert_eq!(get_group(b"j\xc3\xbcrgen\0"), Ok(String::from("j\u{fc}rgen")));
}

#[test]
fn name_that_was_not_found_is_empty() {
    assert_eq!(get_user(b"\0"), Ok(String::new()));
    assert_eq!(get_group(b"\0"), Ok(String::new()));
}

#[test]
fn user_and_group_failures() {
    assert_eq!(get_user(b"root"), Err(DecodeError::NotTerminated));
    assert_eq!(get_user(b"ro\xffot\0"), Err(DecodeError::InvalidUtf8));
    assert_eq!(get_group(b""), Err(DecodeError::NotTerminated));
    assert_eq!(get_group(b"\xe2\x82\0"), Err(DecodeError::InvalidUtf8));
}

#[test]
fn wait_channel_symbol() {
    assert_eq!(lookup_wchan_str(b"do_epoll_wait\0"), Ok("do_epoll_wait"));
    assert_eq!(lookup_wchan_string(b"futex_wait_queue\0"), Ok(String::from("futex_wait_queue")));
    assert_eq!(lookup_wchan_str(b"-\0"), Ok("-"));
}

#[test]
fn wait_channel_that_was_not_found_is_empty() {
    assert_eq!(lookup_wchan_str(b"\0"), Ok(""));
    assert_eq!(lookup_wchan_string(b"\0"), Ok(String::new()));
    assert_eq!(lookup_wchan_string(b"\0leftover"), Ok(String::new()));
}

#[test]
fn wait_channel_failures() {
    assert_eq!(lookup_wchan_str(b"poll"), Err(DecodeError::NotTerminated));
    assert_eq!(lookup_wchan_string(b"\xf8\0"), Err(DecodeError::InvalidUtf8));
}
