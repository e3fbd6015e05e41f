use uring_util::error::{release_status, Error};
use uring_util::fd::Fd;
use uring_util::mmap::{MapOutcome, MapRequest, Mmap};

#[test]
fn validate_accepts_non_negative_and_peeks_back() {
    for n in [0, 1, 3, 1024, i32::MAX] {
        let fd = Fd::validate(n).unwrap();
        assert_eq!(fd.peek(), n);
        assert!(fd.is_owning());
    }
}

#[test]
fn validate_refuses_negative() {
    for n in [-1, -2, -4096, i32::MIN] {
        assert_eq!(Fd::validate(n).unwrap_err(), Error::InvalidDescriptor);
    }
}

#[test]
fn adopt_owns_the_value() {
    let fd = Fd::adopt(7);
    assert_eq!(fd.peek(), 7);
    assert!(fd.is_owning());
}

#[test]
fn release_ownership_then_adopt_closes_once() {
    let mut original = Fd::validate(5).unwrap();
    let raw = original.release_ownership();
    assert_eq!(raw, 5);
    assert!(!original.is_owning());
    let mut adopted = Fd::adopt(raw);
    let mut closes = Vec::new();
    if let Some(fd) = original.take_owned() {
        closes.push(fd);
    }
    if let Some(fd) = adopted.take_owned() {
        closes.push(fd);
    }
    assert_eq!(closes, vec![5]);
}

#[test]
fn take_owned_hands_the_descriptor_out_once() {
    let mut fd = Fd::validate(9).unwrap();
    assert_eq!(fd.take_owned(), Some(9));
    assert!(!fd.is_owning());
    assert_eq!(fd.take_owned(), None);
    assert_eq!(fd.peek(), 9);
}

#[test]
fn request_carries_descriptor_offset_and_length() {
    let fd = Fd::validate(3).unwrap();
    let req = Mmap::request(&fd, 4096, 8192);
    assert_eq!(req, MapRequest { fd: 3, offset: 4096, len: 8192 });
}

#[test]
fn granted_mapping_has_requested_length() {
    let fd = Fd::validate(4).unwrap();
    for len in [1usize, 4096, 1 << 20] {
        let req = Mmap::request(&fd, 0, len);
        let m = Mmap::new(&req, MapOutcome::Mapped(0x7f00_0000_0000)).unwrap();
        assert_eq!(m.len(), len);
        assert_eq!(m.as_mut_ptr(), 0x7f00_0000_0000);
        assert!(m.is_mapped());
    }
}

#[test]
fn refused_mapping_reports_os_error() {
    let fd = Fd::validate(4).unwrap();
    let req = Mmap::request(&fd, 0, 4096);
    assert_eq!(
        Mmap::new(&req, MapOutcome::Failed(19)).unwrap_err(),
        Error::OsMappingFailure(19)
    );
    let empty = Mmap::request(&fd, 0, 0);
    assert_eq!(
        Mmap::new(&empty, MapOutcome::Failed(22)).unwrap_err(),
        Error::OsMappingFailure(22)
    );
}

#[test]
fn pointer_at_is_base_plus_offset() {
    let req = MapRequest { fd: 3, offset: 0, len: 4096 };
    let m = Mmap::new(&req, MapOutcome::Mapped(0x1000)).unwrap();
    for offset in [0usize, 4, 64, 4095, 4096] {
        assert_eq!(m.pointer_at(offset), m.as_mut_ptr() + offset);
    }
    assert_eq!(m.pointer_at(64), 0x1040);
    assert_eq!(m.pointer_at(16), m.pointer_at(16));
}

#[test]
fn pointer_at_reaches_the_top_of_the_address_space() {
    let len = 4096usize;
    let base = usize::MAX - len;
    let req = MapRequest { fd: 3, offset: 0, len };
    let m = Mmap::new(&req, MapOutcome::Mapped(base)).unwrap();
    assert_eq!(m.pointer_at(len), usize::MAX);
}

#[test]
fn take_mapping_hands_the_range_out_once() {
    let req = MapRequest { fd: 3, offset: 0, len: 8192 };
    let mut m = Mmap::new(&req, MapOutcome::Mapped(0x2000)).unwrap();
    assert_eq!(m.take_mapping(), Some((0x2000, 8192)));
    assert!(!m.is_mapped());
    assert_eq!(m.take_mapping(), None);
}

#[test]
fn map_four_kib_at_offset_zero_end_to_end() {
    let fd = Fd::validate(3).unwrap();
    let req = Mmap::request(&fd, 0, 4096);
    let mut m = Mmap::new(&req, MapOutcome::Mapped(0x10_0000)).unwrap();
    assert_eq!(m.len(), 4096);
    assert_eq!(m.pointer_at(0), m.as_mut_ptr());
    let mut unmaps = 0;
    for _ in 0..3 {
        if let Some((addr, len)) = m.take_mapping() {
            assert_eq!((addr, len), (0x10_0000, 4096));
            unmaps += 1;
        }
    }
    assert_eq!(unmaps, 1);
}

#[test]
fn invalid_descriptor_touches_nothing() {
    let r = Fd::validate(-1);
    assert_eq!(r.unwrap_err(), Error::InvalidDescriptor);
}

#[test]
fn release_status_reads_success_and_failure() {
    assert_eq!(release_status(0, 0), Ok(()));
    assert_eq!(release_status(0, 9), Ok(()));
    assert_eq!(release_status(-1, 9), Err(Error::ReleaseFailure(9)));
    assert_eq!(release_status(-1, 5), Err(Error::ReleaseFailure(5)));
}
