use naia_supervisor::pid::{parse_pid, render_pid, signal_target};

fn round_trip(pid: u32) {
    let written = render_pid(pid);
    assert_eq!(parse_pid(&written), Some(pid));
}

#[test]
fn pid_round_trip_small_values() {
    round_trip(0);
    round_trip(1);
    round_trip(9);
    round_trip(10);
    round_trip(500);
}

#[test]
fn pid_round_trip_at_signed_boundary() {
    round_trip(2_147_483_647); // i32::MAX
    round_trip(2_147_483_648); // i32::MAX + 1
    round_trip(4_294_967_295); // u32::MAX
}

#[test]
fn render_pid_is_plain_decimal() {
    assert_eq!(render_pid(0), b"0".to_vec());
    assert_eq!(render_pid(42), b"42".to_vec());
    assert_eq!(render_pid(4_294_967_295), b"4294967295".to_vec());
}

#[test]
fn parse_pid_accepts_surrounding_whitespace() {
    assert_eq!(parse_pid(&b" 123 \n".to_vec()), Some(123));
    assert_eq!(parse_pid(&b"\t77\r\n".to_vec()), Some(77));
}

#[test]
fn parse_pid_accepts_leading_plus() {
    assert_eq!(parse_pid(&b"+5".to_vec()), Some(5));
}

#[test]
fn parse_pid_rejects_garbage() {
    assert_eq!(parse_pid(&b"".to_vec()), None);
    assert_eq!(parse_pid(&b"   ".to_vec()), None);
    assert_eq!(parse_pid(&b"abc".to_vec()), None);
    assert_eq!(parse_pid(&b"12x".to_vec()), None);
    assert_eq!(parse_pid(&b"-1".to_vec()), None);
    assert_eq!(parse_pid(&b"+".to_vec()), None);
    assert_eq!(parse_pid(&b"1 2".to_vec()), None);
}

#[test]
fn parse_pid_rejects_overflow() {
    assert_eq!(parse_pid(&b"4294967296".to_vec()), None);
    assert_eq!(parse_pid(&b"999999999999999999999".to_vec()), None);
}

#[test]
fn signal_target_requires_positive_signed_range() {
    assert_eq!(signal_target(0), None);
    assert_eq!(signal_target(1), Some(1));
    assert_eq!(signal_target(2_147_483_647), Some(2_147_483_647));
    assert_eq!(signal_target(2_147_483_648), None);
    assert_eq!(signal_target(4_294_967_295), None);
}
