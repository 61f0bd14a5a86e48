use fdsafe::is_str_null_terminated;
use fdsafe::terminated_path;

#[test]
fn test_is_str_null_terminated() {
    let dut_pid = 123456i32;
    let dut_a = format!("/proc/{}/mem", dut_pid);
    let dut_b = format!("/proc/{}/mem\x00", dut_pid);

    assert!(!is_str_null_terminated(&dut_a));
    assert!(is_str_null_terminated(&dut_b));
}

#[test]
fn terminator_check_on_single_characters() {
    assert!(!is_str_null_terminated("x"));
    assert!(is_str_null_terminated("\0"));
    assert!(!is_str_null_terminated("ä"));
}

#[test]
fn terminated_path_appends_a_zero_byte() {
    let p = terminated_path("/tmp/x");
    assert_eq!(p, b"/tmp/x\0".to_vec());
}

#[test]
fn terminated_path_keeps_an_existing_terminator() {
    let p = terminated_path("/tmp/x\0");
    assert_eq!(p, b"/tmp/x\0".to_vec());
}

#[test]
fn terminated_path_agrees_on_both_forms() {
    assert_eq!(terminated_path("/tmp/x"), terminated_path("/tmp/x\0"));
}

#[test]
fn open_request_pairs_the_path_with_the_mask() {
    let opts = fdsafe::ExtOpenOptions::new().write_only().create();
    let (bytes, mask) = opts.open_request("/tmp/x");
    assert_eq!(bytes, b"/tmp/x\0".to_vec());
    assert_eq!(mask, fdsafe::O_WRONLY | fdsafe::O_CREAT);
}

#[test]
fn terminated_path_always_ends_in_zero() {
    let p = terminated_path("a");
    assert_eq!(*p.last().unwrap(), 0u8);
    let q = terminated_path("büro");
    assert_eq!(*q.last().unwrap(), 0u8);
    assert_eq!(&q[..q.len() - 1], "büro".as_bytes());
}
