use screenshooter::error::{check_hresult, check_nonzero};
use screenshooter::frame::bgra_to_rgba;
use screenshooter::{Frame, ScreenShootError};

#[test]
fn bgra_to_rgba_swaps_blue_and_red() {
    let bgra = [1u8, 2, 3, 4, 5, 6, 7, 8];
    assert_eq!(bgra_to_rgba(&bgra), vec![3, 2, 1, 4, 7, 6, 5, 8]);
}

#[test]
fn bgra_to_rgba_of_nothing_is_empty() {
    assert!(bgra_to_rgba(&[]).is_empty());
}

#[test]
fn owned_and_borrowed_frames_read_alike() {
    let bytes = vec![9u8, 8, 7, 6];
    let owned = Frame::OwnedData(bytes.clone());
    let borrowed = Frame::BorrowedData(&bytes);
    assert_eq!(owned.len(), 4);
    assert_eq!(borrowed.len(), 4);
    assert_eq!(owned.as_slice(), borrowed.as_slice());
    assert_eq!(owned.byte_at(2), 7);
    assert_eq!(borrowed.byte_at(0), 9);
}

#[test]
fn zero_hresult_is_success() {
    assert!(check_hresult(0, "a.rs", 1).is_ok());
}

#[test]
fn failing_hresult_is_a_graphics_error() {
    match check_hresult(-5, "a.rs", 12) {
        Err(ScreenShootError::DDA { hresult, file, line }) => {
            assert_eq!((hresult, file, line), (-5, "a.rs", 12));
        }
        other => panic!("unexpected {:?}", other),
    }
}

#[test]
fn nonzero_handle_is_kept() {
    assert_eq!(check_nonzero(0x1234, 0, "b.rs", 3).unwrap(), 0x1234);
}

#[test]
fn zero_handle_is_a_legacy_error() {
    match check_nonzero(0, 6, "b.rs", 30) {
        Err(ScreenShootError::GDI { last_error, file, line }) => {
            assert_eq!((last_error, file, line), (6, "b.rs", 30));
        }
        other => panic!("unexpected {:?}", other),
    }
}
