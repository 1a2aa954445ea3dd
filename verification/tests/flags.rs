use lib::buffer::meta::SyncTimelineFlags;
use lib::buffer::{ChunkFlags, DataFlags, MetaHeaderFlags, VideoTransform};

#[test]
fn truncate_then_from_bits_keeps_value() {
    let truncated = MetaHeaderFlags::from_bits_truncate(0xffff_ffff);
    assert_eq!(truncated.bits(), 0x3f);
    assert!(MetaHeaderFlags::from_bits(truncated.bits()) == Some(truncated));
    assert!(MetaHeaderFlags::from_bits_truncate(truncated.bits()) == truncated);
}

#[test]
fn from_bits_rejects_undefined_bits() {
    assert!(DataFlags::from_bits(8).is_none());
    assert!(DataFlags::from_bits(5) == Some(DataFlags::READABLE().union(DataFlags::DYNAMIC())));
    assert!(SyncTimelineFlags::from_bits(2).is_none());
    assert!(SyncTimelineFlags::from_bits(1) == Some(SyncTimelineFlags::UNSCHEDULED_RELEASE()));
    assert!(ChunkFlags::from_bits(1) == Some(ChunkFlags::CORRUPTED()));
}

#[test]
fn retain_keeps_all_bits() {
    assert_eq!(DataFlags::from_bits_retain(0xf0).bits(), 0xf0);
    assert_eq!(VideoTransform::from_bits_retain(0x80).bits(), 0x80);
    assert_eq!(ChunkFlags::from_bits_retain(-8).bits(), -8);
}

#[test]
fn insert_then_contains() {
    let mut flags = DataFlags::READABLE();
    flags.insert(DataFlags::DYNAMIC());
    assert!(flags.contains(DataFlags::DYNAMIC()));
    assert!(flags.contains(DataFlags::READABLE()));
    assert_eq!(flags.bits(), 5);
}

#[test]
fn remove_then_disjoint() {
    let mut flags = MetaHeaderFlags::all();
    flags.remove(MetaHeaderFlags::GAP().union(MetaHeaderFlags::HEADER()));
    assert!(!flags.intersects(MetaHeaderFlags::GAP()));
    assert!(!flags.intersects(MetaHeaderFlags::HEADER()));
    assert_eq!(flags.bits(), 0x27);
    let mut chunk = ChunkFlags::CORRUPTED();
    chunk.remove(ChunkFlags::CORRUPTED());
    assert!(chunk.is_empty());
}

#[test]
fn empty_and_all() {
    assert!(DataFlags::empty().is_empty());
    assert!(!DataFlags::all().is_empty());
    assert!(DataFlags::all().contains(DataFlags::READWRITE()));
    assert!(DataFlags::empty().contains(DataFlags::empty()));
    assert!(!DataFlags::empty().intersects(DataFlags::all()));
    assert_eq!(SyncTimelineFlags::all().bits(), 1);
    assert_eq!(ChunkFlags::all().bits(), 1);
    assert!(VideoTransform::all().contains(VideoTransform::IDENTITY()));
    assert_eq!(VideoTransform::empty().bits(), VideoTransform::IDENTITY().bits());
}

#[test]
fn contains_iff_union_unchanged() {
    let rw = DataFlags::READWRITE();
    assert!(rw.contains(DataFlags::READABLE()));
    assert!(rw.union(DataFlags::READABLE()) == rw);
    assert!(!rw.contains(DataFlags::DYNAMIC()));
    assert!(rw.union(DataFlags::DYNAMIC()) != rw);
}

#[test]
fn flag_text_forms() {
    assert_eq!(DataFlags::READWRITE().debug_text(), "DataFlags(READABLE | WRITABLE)");
    assert_eq!(DataFlags::empty().debug_text(), "DataFlags(0x0)");
    assert_eq!(DataFlags::from_bits_retain(0x15).debug_text(), "DataFlags(READABLE | DYNAMIC | 0x10)");
    assert_eq!(DataFlags::from_bits_retain(0xf0).debug_text(), "DataFlags(0xf0)");
    assert_eq!(
        MetaHeaderFlags::from_bits_retain(0x21).debug_text(),
        "MetaHeaderFlags(DISCONT | DELTA_UNIT)"
    );
    assert_eq!(ChunkFlags::CORRUPTED().debug_text(), "ChunkFlags(CORRUPTED)");
    assert_eq!(ChunkFlags::from_bits_retain(-1).debug_text(), "ChunkFlags(CORRUPTED | 0xfffffffe)");
    assert_eq!(VideoTransform::from_bits_retain(3).debug_text(), "VideoTransform(ROT_90 | ROT_180)");
    assert_eq!(VideoTransform::FLIP_XY().debug_text(), "VideoTransform(ROT_180 | FLIP_X)");
    assert_eq!(VideoTransform::IDENTITY().debug_text(), "VideoTransform(0x0)");
    assert_eq!(
        SyncTimelineFlags::from_bits_retain(0x1234_5679).debug_text(),
        "SyncTimelineFlags(UNSCHEDULED_RELEASE | 0x12345678)"
    );
}

#[test]
fn more_flag_operations() {
    let rw = DataFlags::READWRITE();
    assert!(!rw.is_all());
    assert!(DataFlags::all().is_all());
    assert!(DataFlags::from_bits_retain(0xff).is_all());
    assert_eq!(rw.intersection(DataFlags::WRITABLE()).bits(), 2);
    assert_eq!(rw.difference(DataFlags::WRITABLE()).bits(), 1);
    assert_eq!(rw.symmetric_difference(DataFlags::all()).bits(), 4);
    assert_eq!(rw.complement().bits(), 4);
    assert_eq!(DataFlags::from_bits_retain(0x10).complement().bits(), 7);
    let mut flags = rw;
    flags.toggle(DataFlags::DYNAMIC().union(DataFlags::READABLE()));
    assert_eq!(flags.bits(), 6);
    flags.set(DataFlags::READABLE(), true);
    assert_eq!(flags.bits(), 7);
    flags.set(DataFlags::WRITABLE(), false);
    assert_eq!(flags.bits(), 5);
    assert_eq!(ChunkFlags::CORRUPTED().complement().bits(), 0);
    assert_eq!(ChunkFlags::empty().complement().bits(), 1);
}

#[test]
fn flag_operators() {
    let r = DataFlags::READABLE();
    let w = DataFlags::WRITABLE();
    assert!((r | w) == DataFlags::READWRITE());
    assert!((DataFlags::READWRITE() & w) == w);
    assert!((DataFlags::READWRITE() ^ w) == r);
    assert!((DataFlags::READWRITE() - r) == w);
    assert!(!r == w.union(DataFlags::DYNAMIC()));
    assert!((MetaHeaderFlags::GAP() | MetaHeaderFlags::HEADER()).bits() == 0x18);
    assert!((!ChunkFlags::empty()) == ChunkFlags::CORRUPTED());
}
