use fdsafe::ExtOpenOptions;
use fdsafe::OsError;
use fdsafe::SeekRequest;
use nix::fcntl::OFlag;
use nix::sys::stat::Mode;
use nix::unistd::Whence;

fn err(code: i32) -> OsError {
    OsError { code, message: String::from("mock platform error") }
}

fn whence_for(origin: i32) -> Whence {
    if origin == libc::SEEK_SET {
        Whence::SeekSet
    } else if origin == libc::SEEK_CUR {
        Whence::SeekCur
    } else {
        Whence::SeekEnd
    }
}

#[test]
fn scenario_write_then_reopen_and_read_back() {
    let path = "/tmp/fdsafe_scenario_t.dat";
    let _ = nix::unistd::unlink(path);

    let flags = ExtOpenOptions::new().write_only().create().truncating().flags();
    let fd = nix::fcntl::open(path, OFlag::from_bits_retain(flags), Mode::from_bits_truncate(0o644))
        .unwrap();
    let value: i32 = 42;
    let written = nix::unistd::write(&fd, &value.to_ne_bytes()).unwrap();
    assert_eq!(written, 4);
    drop(fd);

    let read_only = ExtOpenOptions::new().flags();
    let fd = nix::fcntl::open(path, OFlag::from_bits_retain(read_only), Mode::empty()).unwrap();
    let mut back = [0u8; 4];
    let got = nix::unistd::read(&fd, &mut back).unwrap();
    assert_eq!(got, 4);
    assert_eq!(i32::from_ne_bytes(back), 42);
    let _ = nix::unistd::unlink(path);
}

#[test]
fn bounded_write_then_read_round_trips() {
    let path = "/tmp/fdsafe_round_trip.dat";
    let _ = nix::unistd::unlink(path);

    let flags = ExtOpenOptions::new().readwrite().create().truncating().flags();
    let fd = nix::fcntl::open(path, OFlag::from_bits_retain(flags), Mode::from_bits_truncate(0o644))
        .unwrap();

    let data: [u8; 8] = [1, 2, 3, 4, 5, 6, 7, 8];
    let count: usize = 5;
    let n = fdsafe::transfer_request(count, data.len()).unwrap();
    let written = nix::unistd::write(&fd, &data[..n]).unwrap();
    assert_eq!(written, count);

    let (origin, dist) = fdsafe::seek_plan(SeekRequest::Start(0));
    let pos = nix::unistd::lseek(&fd, dist, whence_for(origin)).unwrap();
    assert_eq!(fdsafe::seek_outcome(pos, err(0)).unwrap(), 0);

    let mut buf = [0u8; 8];
    let m = fdsafe::transfer_request(count, buf.len()).unwrap();
    let got = nix::unistd::read(&fd, &mut buf[..m]).unwrap();
    assert_eq!(got, count);
    assert_eq!(&buf[..count], &data[..count]);
    let _ = nix::unistd::unlink(path);
}

#[test]
fn fsize_reports_length_and_restores_position() {
    let path = "/tmp/fdsafe_size.dat";
    let _ = nix::unistd::unlink(path);

    let flags = ExtOpenOptions::new().readwrite().create().truncating().flags();
    let fd = nix::fcntl::open(path, OFlag::from_bits_retain(flags), Mode::from_bits_truncate(0o644))
        .unwrap();
    let written = nix::unistd::write(&fd, b"0123456789").unwrap();
    assert_eq!(written, 10);

    let (probe_origin, probe_dist) = fdsafe::seek_plan(SeekRequest::End(0));
    let size = nix::unistd::lseek(&fd, probe_dist, whence_for(probe_origin)).unwrap();
    let (restore_origin, restore_dist) = fdsafe::seek_plan(SeekRequest::Start(0));
    let restored = nix::unistd::lseek(&fd, restore_dist, whence_for(restore_origin)).unwrap();
    assert_eq!(fdsafe::fsize_finish(size, restored, err(0)).unwrap(), 10);

    let mut buf = [0u8; 3];
    let got = nix::unistd::read(&fd, &mut buf).unwrap();
    assert_eq!(got, 3);
    assert_eq!(&buf, b"012");
    let _ = nix::unistd::unlink(path);
}

#[test]
fn exclusive_create_fails_on_an_existing_path() {
    let path = "/tmp/fdsafe_excl.dat";
    let _ = nix::unistd::unlink(path);

    let flags = ExtOpenOptions::new().write_only().create().excl().flags();
    let first = nix::fcntl::open(path, OFlag::from_bits_retain(flags), Mode::from_bits_truncate(0o644));
    assert!(first.is_ok());
    drop(first);

    let again = nix::fcntl::open(path, OFlag::from_bits_retain(flags), Mode::from_bits_truncate(0o644));
    assert_eq!(again.unwrap_err(), nix::errno::Errno::EEXIST);
    let _ = nix::unistd::unlink(path);
}

#[test]
fn open_succeeds_on_a_normalized_path() {
    let raw = "/tmp/fdsafe_norm.dat";
    let _ = nix::unistd::unlink(raw);

    // Both spellings of the path normalize to the same terminated bytes.
    let with_terminator = "/tmp/fdsafe_norm.dat\0";
    assert_eq!(fdsafe::terminated_path(raw), fdsafe::terminated_path(with_terminator));

    let flags = ExtOpenOptions::new().write_only().create().flags();
    let fd = nix::fcntl::open(raw, OFlag::from_bits_retain(flags), Mode::from_bits_truncate(0o644));
    assert!(fd.is_ok());
    drop(fd);
    let _ = nix::unistd::unlink(raw);
}
