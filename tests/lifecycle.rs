use std::cell::Cell;
use std::rc::Rc;

use libexif_wrapper::{c_path, native_length, Exif, ExifError};

/// A stand-in native handle that counts how often it is freed.
struct CountedHandle {
    frees: Rc<Cell<u32>>,
}

impl Drop for CountedHandle {
    fn drop(&mut self) {
        self.frees.set(self.frees.get() + 1);
    }
}

#[test]
fn release_hands_out_handle_once() {
    let mut exif = Exif::from_native(Some(41u32)).ok().unwrap();
    assert_eq!(exif.handle(), Some(&41));
    assert_eq!(exif.release(), Some(41));
    assert_eq!(exif.handle(), None);
    assert_eq!(exif.release(), None);
    assert_eq!(exif.release(), None);
}

#[test]
fn handle_is_freed_exactly_once() {
    let frees = Rc::new(Cell::new(0));
    {
        let mut exif = Exif::from_native(Some(CountedHandle { frees: frees.clone() }))
            .ok()
            .unwrap();
        drop(exif.release());
        assert_eq!(frees.get(), 1);
        assert!(exif.release().is_none());
    }
    assert_eq!(frees.get(), 1);
}

#[test]
fn failed_parse_owns_nothing() {
    let r = Exif::<u32>::from_native(None);
    assert!(matches!(r, Err(ExifError::ParseFailed)));
}

#[test]
fn path_is_nul_terminated() {
    assert_eq!(c_path("a/b.jpg"), Some(b"a/b.jpg\0".to_vec()));
    assert_eq!(c_path(""), Some(vec![0]));
    assert_eq!(c_path("é"), Some(vec![0xc3, 0xa9, 0]));
}

#[test]
fn path_with_nul_is_rejected() {
    assert_eq!(c_path("no\0such.jpg"), None);
}

#[test]
fn native_length_of_small_buffer() {
    assert_eq!(native_length(&[1, 2, 3]), Ok(3));
    assert_eq!(native_length(&[]), Ok(0));
}
