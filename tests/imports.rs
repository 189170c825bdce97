use ferrex::data::ArbitraryData;
use ferrex::handle::{Handle, HandleKind};
use ferrex::imports::{encode_words, get_assembly_count, guest_range, ids_for_buffer, unbox_target, write_assembly_ids, write_bytes, HandleArena, ImportError};
use ferrex::logging::{log_line, LogError, LogLevel};
use ferrex::text::contains_nul;

#[test]
fn guest_ranges_are_bounded() {
    assert_eq!(guest_range(16, 0, 16), Ok((0, 16)));
    assert_eq!(guest_range(16, 4, 4), Ok((4, 8)));
    assert_eq!(guest_range(16, 10, 7), Err(ImportError::OutOfBounds));
    assert_eq!(guest_range(16, -1, 2), Err(ImportError::OutOfBounds));
    assert_eq!(guest_range(16, 2, -2), Err(ImportError::OutOfBounds));
    assert_eq!(guest_range(16, 17, 0), Err(ImportError::OutOfBounds));
}

#[test]
fn writes_land_in_place() {
    let mut mem = vec![0u8; 8];
    assert_eq!(write_bytes(&mut mem, 2, b"abc"), Ok(3));
    assert_eq!(mem, vec![0, 0, b'a', b'b', b'c', 0, 0, 0]);
    assert_eq!(write_bytes(&mut mem, 6, b"xyz"), Err(ImportError::OutOfBounds));
    assert_eq!(mem, vec![0, 0, b'a', b'b', b'c', 0, 0, 0]);
}

#[test]
fn words_are_little_endian() {
    assert_eq!(encode_words(&vec![1, 0x01020304, -1]), vec![1, 0, 0, 0, 4, 3, 2, 1, 255, 255, 255, 255]);
    assert!(encode_words(&vec![]).is_empty());
}

#[test]
fn arena_ids() {
    let mut a = HandleArena::new();
    let assembly = Handle { kind: HandleKind::Assembly, addr: 0x1234_5678_9abc };
    assert_eq!(a.register(Handle { kind: HandleKind::Class, addr: 0 }), 0);
    let id = a.register(assembly);
    assert_eq!(id, 1);
    assert_eq!(a.lookup(id, HandleKind::Assembly), Ok(assembly));
    assert_eq!(a.lookup(id, HandleKind::Class), Err(ImportError::WrongKind));
    assert_eq!(a.lookup(0, HandleKind::Assembly), Err(ImportError::UnknownHandle));
    assert_eq!(a.lookup(2, HandleKind::Assembly), Err(ImportError::UnknownHandle));
    assert_eq!(a.receiver(0), Ok(None));
    assert_eq!(a.receiver(id), Err(ImportError::WrongKind));
    let ids = a.register_all(&vec![Handle { kind: HandleKind::Object, addr: 7 }, assembly]);
    assert_eq!(ids, vec![2, 3]);
    assert_eq!(a.receiver(2), Ok(Some(Handle { kind: HandleKind::Object, addr: 7 })));
}

#[test]
fn counts_and_unboxing() {
    let hs = vec![Handle { kind: HandleKind::Assembly, addr: 1 }; 3];
    assert_eq!(get_assembly_count(&hs), 3);
    assert_eq!(get_assembly_count(&Vec::new()), 0);
    assert_eq!(unbox_target(Handle { kind: HandleKind::Object, addr: 0 }), Err(ImportError::NullObject));
    assert_eq!(unbox_target(Handle { kind: HandleKind::Object, addr: 8 }), Ok(8));
}

#[test]
fn log_levels_and_lines() {
    assert_eq!(LogLevel::try_from(0), Ok(LogLevel::Info));
    assert_eq!(LogLevel::try_from(2), Ok(LogLevel::Error));
    assert_eq!(LogLevel::try_from(3), Err(LogError::InvalidLevel(3)));
    assert_eq!(log_line(LogLevel::Info, "12:00:00.000", "hi"), "[12:00:00.000] hi");
    assert_eq!(log_line(LogLevel::Warning, "t", "careful"), "[t] [WARNING] careful");
    assert_eq!(log_line(LogLevel::Error, "t", "bad"), "[t] [ERROR] bad");
}

#[test]
fn nul_detection() {
    assert!(contains_nul("a\0"));
    assert!(!contains_nul("abc"));
    assert!(!contains_nul(""));
}

#[test]
fn setter_argument() {
    let d = ArbitraryData { data: vec![vec![1, 2], vec![3]] };
    assert_eq!(d.argument(), Some(&vec![1u8, 2]));
    let e = ArbitraryData { data: Vec::new() };
    assert_eq!(e.argument(), None);
}

#[test]
fn assembly_ids_fill_the_buffer() {
    let ids = vec![1, 2, 3];
    let mut mem = vec![0u8; 16];
    assert_eq!(write_assembly_ids(&mut mem, 4, 2, &ids), Ok(2));
    assert_eq!(mem, vec![0, 0, 0, 0, 1, 0, 0, 0, 2, 0, 0, 0, 0, 0, 0, 0]);
    let mut mem = vec![0u8; 16];
    assert_eq!(write_assembly_ids(&mut mem, 4, 10, &ids), Ok(3));
    assert_eq!(&mem[4..16], &[1, 0, 0, 0, 2, 0, 0, 0, 3, 0, 0, 0]);
    assert_eq!(ids_for_buffer(&ids, 0), Vec::<i32>::new());
    assert_eq!(ids_for_buffer(&ids, 2), vec![1, 2]);
}

#[test]
fn assembly_ids_refuse_bad_buffers() {
    let ids = vec![1, 2, 3];
    let mut mem = vec![0u8; 16];
    assert_eq!(write_assembly_ids(&mut mem, 0, 3, &ids), Err(ImportError::NullPointer));
    assert_eq!(write_assembly_ids(&mut mem, 4, -1, &ids), Err(ImportError::OutOfBounds));
    assert_eq!(write_assembly_ids(&mut mem, 8, 3, &ids), Err(ImportError::OutOfBounds));
    assert_eq!(mem, vec![0u8; 16]);
}
