use arbhx_blocking::{Capability, Unsupported, VfsCompat};

type Layer = VfsCompat<&'static str, u8, u16, u32, u64, i32>;

fn partial() -> Layer {
    VfsCompat::new(7, "backend", Some(1u8), None, Some(3u32), None)
}

fn complete() -> Layer {
    VfsCompat::new(9, "full-backend", Some(1u8), Some(2u16), Some(3u32), Some(4u64))
}

fn bare() -> Layer {
    VfsCompat::new(0, "empty", None, None, None, None)
}

#[test]
fn granted_capabilities_are_handed_out() {
    let c = partial();
    assert_eq!(c.reader(), Ok(&1u8));
    assert_eq!(c.writer_seek(), Ok(&3u32));
}

#[test]
fn missing_capabilities_are_refused_by_name() {
    let c = partial();
    assert_eq!(c.writer(), Err(Unsupported { capability: Capability::Writer }));
    assert_eq!(c.full(), Err(Unsupported { capability: Capability::Full }));
}

#[test]
fn empty_backend_refuses_everything() {
    let c = bare();
    assert_eq!(c.reader(), Err(Unsupported { capability: Capability::Reader }));
    assert_eq!(c.writer(), Err(Unsupported { capability: Capability::Writer }));
    assert_eq!(c.writer_seek(), Err(Unsupported { capability: Capability::WriterSeek }));
    assert_eq!(c.full(), Err(Unsupported { capability: Capability::Full }));
    for cap in [Capability::Reader, Capability::Writer, Capability::WriterSeek, Capability::Full] {
        assert!(!c.has(cap));
    }
}

#[test]
fn complete_backend_hands_out_everything() {
    let c = complete();
    assert_eq!(c.reader(), Ok(&1u8));
    assert_eq!(c.writer(), Ok(&2u16));
    assert_eq!(c.writer_seek(), Ok(&3u32));
    assert_eq!(c.full(), Ok(&4u64));
    assert_eq!(c.offer_full("this"), Some("this"));
}

#[test]
fn has_reports_granted_capabilities() {
    let c = partial();
    assert!(c.has(Capability::Reader));
    assert!(!c.has(Capability::Writer));
    assert!(c.has(Capability::WriterSeek));
    assert!(!c.has(Capability::Full));
}

#[test]
fn offers_follow_granted_capabilities() {
    let c = partial();
    assert_eq!(c.offer_reader('r'), Some('r'));
    assert_eq!(c.offer_writer('w'), None);
    assert_eq!(c.offer_writer_seek('s'), Some('s'));
    assert_eq!(c.offer_full('f'), None);
}

#[test]
fn offer_agrees_with_access() {
    for c in [partial(), complete(), bare()] {
        assert_eq!(c.offer_reader(()).is_some(), c.reader().is_ok());
        assert_eq!(c.offer_writer(()).is_some(), c.writer().is_ok());
        assert_eq!(c.offer_writer_seek(()).is_some(), c.writer_seek().is_ok());
        assert_eq!(c.offer_full(()).is_some(), c.full().is_ok());
    }
}

#[test]
fn backend_and_runtime_are_kept() {
    let c = partial();
    assert_eq!(*c.backend(), "backend");
    assert_eq!(*c.runtime(), 7);
}

#[test]
fn clone_keeps_capabilities() {
    let c = partial().clone();
    assert_eq!(c.reader(), Ok(&1u8));
    assert_eq!(c.writer(), Err(Unsupported { capability: Capability::Writer }));
}

#[test]
fn unsupported_names_its_capability() {
    assert_eq!(Unsupported::new(Capability::WriterSeek).capability, Capability::WriterSeek);
}
