use lib::buffer::meta::{
    DamageRegion, MetaBitmap, MetaBusy, MetaControl, MetaCursor, MetaHeader, MetaHeaderFlags,
    MetaRegion, MetaSyncTimeline, MetaVideoTransform, Metadata, SyncTimelineFlags, VideoCrop,
    VideoDamage, VideoTransform,
};
use lib::param::video::VideoFormat;
use lib::sys::{
    spa_meta, spa_meta_bitmap, spa_meta_busy, spa_meta_control, spa_meta_cursor, spa_meta_header,
    spa_meta_region, spa_meta_sync_timeline, spa_meta_videotransform, spa_point, spa_pod,
    spa_pod_sequence, spa_pod_sequence_body, spa_rectangle, spa_region,
};
use lib::utils::{Point, Rectangle};

fn region() -> spa_meta_region {
    spa_meta_region {
        region: spa_region {
            position: spa_point { x: 5, y: -6 },
            size: spa_rectangle { width: 1920, height: 1080 },
        },
    }
}

#[test]
fn video_transform_round_trip() {
    for raw in [0u32, 1, 6, 7, 0xffff_ffff] {
        assert_eq!(VideoTransform::from_raw(raw).as_raw(), raw);
    }
    assert_eq!(VideoTransform::IDENTITY().as_raw(), 0);
    assert_eq!(VideoTransform::ROT90().as_raw(), 1);
    assert_eq!(VideoTransform::ROT180().as_raw(), 2);
    assert_eq!(VideoTransform::ROT270().as_raw(), 3);
    assert_eq!(VideoTransform::FLIP_X().as_raw(), 4);
    assert_eq!(VideoTransform::FLIP_Y().as_raw(), 5);
    assert_eq!(VideoTransform::FLIP_XY().as_raw(), 6);
    assert!(VideoTransform::from_raw(2) == VideoTransform::ROT180());
}

#[test]
fn video_transform_names() {
    assert_eq!(VideoTransform::IDENTITY().debug_name(), "VideoTransform::IDENTITY");
    assert_eq!(VideoTransform::ROT90().debug_name(), "VideoTransform::ROT90");
    assert_eq!(VideoTransform::ROT180().debug_name(), "VideoTransform::ROT180");
    assert_eq!(VideoTransform::ROT270().debug_name(), "VideoTransform::ROT270");
    assert_eq!(VideoTransform::FLIP_X().debug_name(), "VideoTransform::FLIP_X");
    assert_eq!(VideoTransform::FLIP_Y().debug_name(), "VideoTransform::FLIP_Y");
    assert_eq!(VideoTransform::FLIP_XY().debug_name(), "VideoTransform::FLIP_XY");
    assert_eq!(VideoTransform::from_raw(7).debug_name(), "VideoTransform::UNKNOWN");
}

#[test]
fn meta_transform() {
    let meta = MetaVideoTransform::from_raw(spa_meta_videotransform { transform: 3 });
    assert!(meta.transform() == VideoTransform::ROT270());
    assert_eq!(meta.as_raw().transform, 3);
}

#[test]
fn meta_header() {
    let header = MetaHeader::from_raw(spa_meta_header {
        flags: 0x24,
        offset: 1,
        pts: 1_000_000,
        dts_offset: -20,
        seq: 3,
    });
    assert_eq!(header.offset(), 1);
    assert_eq!(header.pts(), 1_000_000);
    assert_eq!(header.dts_offset(), -20);
    assert_eq!(header.seq(), 3);
    let flags = header.flags();
    assert!(flags.contains(MetaHeaderFlags::MARKER()));
    assert!(flags.contains(MetaHeaderFlags::DELTA_UNIT()));
    assert!(!flags.intersects(MetaHeaderFlags::HEADER()));
    assert_eq!(MetaHeaderFlags::all().bits(), 0x3f);
}

#[test]
fn meta_region_and_crop() {
    let raw = region();
    let meta_region = MetaRegion::from_raw(raw);
    assert_eq!(*meta_region.region(), raw.region);
    assert_eq!(meta_region.position(), Point { x: 5, y: -6 });
    assert_eq!(meta_region.size(), Rectangle { width: 1920, height: 1080 });
    let crop = VideoCrop::from_raw(raw);
    assert_eq!(*crop.meta_region().as_raw(), raw);
}

#[test]
fn damage_region() {
    let raw = region();
    let damage = DamageRegion::new(&raw);
    assert_eq!(damage.position(), Point { x: 5, y: -6 });
    assert_eq!(damage.size(), Rectangle { width: 1920, height: 1080 });
    let _ = VideoDamage::from_raw(spa_meta { type_: 3, size: 16, data: 4096 });
}

#[test]
fn bitmap_validity() {
    let bitmap = MetaBitmap::from_raw(spa_meta_bitmap {
        format: 0,
        size: spa_rectangle { width: 0, height: 0 },
        stride: 0,
        offset: 0,
    });
    assert!(!bitmap.is_valid());
    let bitmap = MetaBitmap::from_raw(spa_meta_bitmap {
        format: 12,
        size: spa_rectangle { width: 64, height: 64 },
        stride: 256,
        offset: 24,
    });
    assert!(bitmap.is_valid());
    assert_eq!(bitmap.format(), VideoFormat(12));
    assert_eq!(bitmap.size(), Rectangle { width: 64, height: 64 });
    assert_eq!(bitmap.stride(), 256);
    assert_eq!(bitmap.offset(), 24);
}

#[test]
fn cursor_validity() {
    let raw = spa_meta_cursor {
        id: 0,
        flags: 0,
        position: spa_point { x: 1, y: 2 },
        hotspot: spa_point { x: 3, y: 4 },
        bitmap_offset: 0,
    };
    assert!(!MetaCursor::from_raw(raw).is_valid());
    let cursor = MetaCursor::from_raw(spa_meta_cursor { id: 9, bitmap_offset: 32, ..raw });
    assert!(cursor.is_valid());
    assert_eq!(cursor.id(), 9);
    assert_eq!(cursor.flags(), 0);
    assert_eq!(cursor.position(), Point { x: 1, y: 2 });
    assert_eq!(cursor.hotspot(), Point { x: 3, y: 4 });
    assert_eq!(cursor.bitmap_offset(), 32);
}

#[test]
fn control_and_busy() {
    let sequence = spa_pod_sequence {
        pod: spa_pod { size: 8, type_: 16 },
        body: spa_pod_sequence_body { unit: 1, pad: 0 },
    };
    let control = MetaControl::from_raw(spa_meta_control { sequence });
    assert_eq!(*control.sequence(), sequence);
    let busy = MetaBusy::from_raw(spa_meta_busy { flags: 1, count: 4 });
    assert_eq!(busy.flag(), 1);
    assert_eq!(busy.count(), 4);
}

#[test]
fn sync_timeline_truncates_flags() {
    let timeline = MetaSyncTimeline::from_raw(spa_meta_sync_timeline {
        flags: 0xff,
        padding: 0,
        acquire_point: 10,
        release_point: 11,
    });
    assert_eq!(timeline.flags().bits(), 1);
    assert!(timeline.flags() == SyncTimelineFlags::UNSCHEDULED_RELEASE());
    assert_eq!(timeline.padding(), 0);
    assert_eq!(timeline.acquire_point(), 10);
    assert_eq!(timeline.release_point(), 11);
}

#[test]
fn meta_types() {
    assert_eq!(MetaHeader::META_TYPE, 1);
    assert_eq!(VideoCrop::META_TYPE, 2);
    assert_eq!(VideoDamage::META_TYPE, 3);
    assert_eq!(MetaBitmap::META_TYPE, 4);
    assert_eq!(MetaCursor::META_TYPE, 5);
    assert_eq!(MetaControl::META_TYPE, 6);
    assert_eq!(MetaBusy::META_TYPE, 7);
    assert_eq!(MetaVideoTransform::META_TYPE, 8);
    assert_eq!(MetaSyncTimeline::META_TYPE, 9);
}

#[test]
fn unknown_transform_kept_as_is() {
    let unknown = VideoTransform::from_raw(42);
    assert!(unknown == VideoTransform::from_raw(42));
    assert!(unknown != VideoTransform::IDENTITY());
    assert!(unknown != VideoTransform::FLIP_XY());
    assert_eq!(unknown.as_raw(), 42);
    let t = VideoTransform::ROT270();
    assert!(VideoTransform::from_raw(t.as_raw()) == t);
    let meta = MetaVideoTransform::from_raw(spa_meta_videotransform { transform: 42 });
    assert!(meta.transform() == VideoTransform::from_raw(42));
}
