use cribbage_client::{
    check_server_frame, frame_tag, seal_frame, Dialer, FrameError, Progress, FRAME_SIZE,
    MAX_ATTEMPTS,
};

#[test]
fn sealed_frame_is_padded() {
    let f = seal_frame(&[1, 2, 3]).unwrap();
    assert_eq!(f.len(), FRAME_SIZE);
    assert_eq!(&f[..3], &[1, 2, 3]);
    assert!(f[3..].iter().all(|b| *b == 0));
    assert_eq!(seal_frame(&[7u8; 256]).unwrap(), vec![7u8; 256]);
}

#[test]
fn oversized_payload_is_refused() {
    assert_eq!(seal_frame(&[0u8; 257]), Err(FrameError::Oversized));
}

#[test]
fn frame_tags() {
    assert_eq!(frame_tag(&[1, 0, 0, 0]), 1);
    assert_eq!(frame_tag(&[0x10, 0x20, 0x30, 0x40]), 0x40302010);
    assert_eq!(frame_tag(&[255, 255, 255, 255]), u32::MAX);
}

#[test]
fn wrong_tag_byte_is_malformed() {
    let mut f = vec![0u8; FRAME_SIZE];
    assert_eq!(check_server_frame(&f), Ok(0));
    f[0] = 26;
    assert_eq!(check_server_frame(&f), Ok(26));
    f[0] = 27;
    assert_eq!(check_server_frame(&f), Err(FrameError::UnknownKind(27)));
    f[0] = 0;
    f[3] = 1;
    assert_eq!(check_server_frame(&f), Err(FrameError::UnknownKind(1 << 24)));
    assert_eq!(check_server_frame(&f[..10]), Err(FrameError::WrongLength));
}

#[test]
fn dialer_gives_up_after_ten_failures() {
    let mut d = Dialer::new();
    assert!(!d.exhausted());
    assert_eq!(d.record_failure(), Progress::Begin);
    for _ in 2..MAX_ATTEMPTS {
        assert_eq!(d.record_failure(), Progress::Dot);
        assert!(!d.exhausted());
    }
    assert_eq!(d.record_failure(), Progress::Finish);
    assert!(d.exhausted());
    assert_eq!(d.failures(), 10);
    assert_eq!(d.record_failure(), Progress::Finish);
    assert_eq!(d.failures(), 10);
}
