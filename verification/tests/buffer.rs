use lib::buffer::{
    Chunk, ChunkFlags, Data, DataFlags, DataType, MetaBitmap, MetaBusy, MetaControl, MetaCursor,
    MetaHeader, MetaHeaderFlags, MetaSyncTimeline, MetaVideoTransform, Metadata, VideoCrop,
    VideoDamage, VideoTransform,
};
use lib::sys::{
    spa_chunk, spa_data, spa_meta_bitmap, spa_meta_control, spa_meta_cursor, spa_meta_header,
    spa_meta_region, spa_meta_sync_timeline, spa_meta_videotransform, spa_point, spa_pod,
    spa_pod_sequence, spa_pod_sequence_body, spa_rectangle, spa_region,
};

fn chunk_raw() -> spa_chunk {
    spa_chunk { offset: 16, size: 128, stride: 64, flags: 1 }
}

fn plane(memory: Option<Vec<u8>>, chunk: Option<Chunk>) -> spa_data {
    spa_data {
        type_: 1,
        flags: 3,
        fd: -1,
        mapoffset: 0,
        maxsize: 4,
        data: memory,
        chunk,
    }
}

#[test]
fn data_type_round_trip_and_names() {
    assert_eq!(DataType::from_raw(3).as_raw(), 3);
    assert_eq!(DataType::MemFd().as_raw(), 2);
    assert!(DataType::from_raw(4) == DataType::MemId());
    assert_eq!(DataType::Invalid().debug_name(), "DataType::Invalid");
    assert_eq!(DataType::MemPtr().debug_name(), "DataType::MemPtr");
    assert_eq!(DataType::MemFd().debug_name(), "DataType::MemFd");
    assert_eq!(DataType::DmaBuf().debug_name(), "DataType::DmaBuf");
    assert_eq!(DataType::MemId().debug_name(), "DataType::MemId");
    assert_eq!(DataType::from_raw(77).debug_name(), "DataType::Unknown");
}

#[test]
fn data_flags_values() {
    assert_eq!(DataFlags::READABLE().bits(), 1);
    assert_eq!(DataFlags::WRITABLE().bits(), 2);
    assert_eq!(DataFlags::DYNAMIC().bits(), 4);
    assert!(DataFlags::READWRITE() == DataFlags::READABLE().union(DataFlags::WRITABLE()));
    assert_eq!(DataFlags::all().bits(), 7);
    assert!(DataFlags::READWRITE().contains(DataFlags::WRITABLE()));
    assert!(!DataFlags::READABLE().contains(DataFlags::READWRITE()));
}

#[test]
fn data_plane_accessors() {
    let data = Data::from_raw(spa_data {
        type_: 2,
        flags: 0x13,
        fd: 0x1_0000_0005,
        mapoffset: 0,
        maxsize: 0,
        data: None,
        chunk: None,
    });
    assert!(data.type_() == DataType::MemFd());
    assert_eq!(data.flags().bits(), 0x13);
    assert_eq!(data.fd(), 5);
    assert_eq!(data.as_raw().maxsize, 0);
}

#[test]
fn data_fd_negative() {
    let data = Data::from_raw(plane(None, None));
    assert_eq!(data.fd(), -1);
}

#[test]
fn data_null_pointer_gives_none() {
    let mut data = Data::from_raw(plane(None, None));
    assert!(data.data().is_none());
}

#[test]
fn data_writes_land_in_memory() {
    let mut data = Data::from_raw(plane(Some(vec![0, 0, 0, 0]), None));
    {
        let slice = data.data().unwrap();
        assert_eq!(slice.len(), 4);
        slice[2] = 9;
    }
    assert_eq!(data.as_raw().data, Some(vec![0, 0, 9, 0]));
    assert_eq!(data.data().unwrap().to_vec(), vec![0, 0, 9, 0]);
}

#[test]
fn data_chunk_read_and_write() {
    let mut data = Data::from_raw(plane(None, Some(Chunk::from_raw(chunk_raw()))));
    assert_eq!(data.chunk().size(), 128);
    *data.chunk_mut().size_mut() = 7;
    *data.chunk_mut().offset_mut() = 3;
    *data.chunk_mut().stride_mut() = -2;
    assert_eq!(data.chunk().size(), 7);
    assert_eq!(data.chunk().offset(), 3);
    assert_eq!(data.chunk().stride(), -2);
    assert_eq!(data.chunk().flags().bits(), 1);
}

#[test]
fn chunk_accessors() {
    let mut chunk = Chunk::from_raw(chunk_raw());
    assert_eq!(chunk.offset(), 16);
    assert_eq!(chunk.size(), 128);
    assert_eq!(chunk.stride(), 64);
    assert!(chunk.flags().contains(ChunkFlags::CORRUPTED()));
    *chunk.size_mut() = 5;
    assert_eq!(chunk.size(), 5);
    assert_eq!(chunk.offset(), 16);
    assert_eq!(*chunk.as_raw(), spa_chunk { offset: 16, size: 5, stride: 64, flags: 1 });
}

#[test]
fn chunk_flags_keep_unknown_bits() {
    let chunk = Chunk::from_raw(spa_chunk { offset: 0, size: 0, stride: 0, flags: -1 });
    assert_eq!(chunk.flags().bits(), -1);
    assert_eq!(ChunkFlags::from_bits_truncate(-1).bits(), 1);
    assert!(ChunkFlags::from_bits(-1).is_none());
}

#[test]
fn meta_header_accessors() {
    let header = MetaHeader::from_raw(spa_meta_header {
        flags: 0x41,
        offset: 12,
        pts: -5,
        dts_offset: 7,
        seq: 99,
    });
    assert_eq!(header.offset(), 12);
    assert_eq!(header.pts(), -5);
    assert_eq!(header.dts_offset(), 7);
    assert_eq!(header.seq(), 99);
    assert_eq!(header.flags().bits(), 0x41);
    assert!(header.flags().contains(MetaHeaderFlags::DISCONT()));
    assert!(!header.flags().contains(MetaHeaderFlags::GAP()));
    assert_eq!(header.as_raw().seq, 99);
}

#[test]
fn region_accessors() {
    let raw = spa_meta_region {
        region: spa_region {
            position: spa_point { x: -3, y: 4 },
            size: spa_rectangle { width: 640, height: 480 },
        },
    };
    let crop = VideoCrop::from_raw(raw);
    assert_eq!(crop.position(), (-3, 4));
    assert_eq!(crop.size(), (640, 480));
    let damage = VideoDamage::from_raw(raw);
    assert_eq!(damage.position(), (-3, 4));
    assert_eq!(damage.size(), (640, 480));
    assert_eq!(*damage.as_raw(), raw);
}

#[test]
fn bitmap_cursor_control_busy() {
    let bitmap = MetaBitmap::from_raw(spa_meta_bitmap {
        format: 8,
        size: spa_rectangle { width: 32, height: 16 },
        stride: 128,
        offset: 20,
    });
    assert_eq!(bitmap.format(), 8);
    assert_eq!(bitmap.size(), (32, 16));
    assert_eq!(bitmap.stride(), 128);
    assert_eq!(bitmap.offset(), 20);

    let cursor = MetaCursor::from_raw(spa_meta_cursor {
        id: 2,
        flags: 1,
        position: spa_point { x: 10, y: 11 },
        hotspot: spa_point { x: 1, y: 2 },
        bitmap_offset: 40,
    });
    assert_eq!(cursor.id(), 2);
    assert_eq!(cursor.flags(), 1);
    assert_eq!(cursor.position(), (10, 11));
    assert_eq!(cursor.hotspot(), (1, 2));
    assert_eq!(cursor.bitmap_offset(), 40);

    let sequence = spa_pod_sequence {
        pod: spa_pod { size: 8, type_: 16 },
        body: spa_pod_sequence_body { unit: 0, pad: 0 },
    };
    let control = MetaControl::from_raw(spa_meta_control { sequence });
    assert_eq!(*control.sequence(), sequence);

    assert!(MetaBusy::from_raw(1).is_busy());
    assert!(!MetaBusy::from_raw(0).is_busy());
    assert_eq!(*MetaBusy::from_raw(6).as_raw(), 6);
}

#[test]
fn transform_and_timeline() {
    let transform = MetaVideoTransform::from_raw(spa_meta_videotransform { transform: 5 });
    assert!(transform.transform() == VideoTransform::FLIP_Y());
    assert_eq!(VideoTransform::all().bits(), 7);
    assert_eq!(VideoTransform::ROT_270().bits(), 3);
    assert!(VideoTransform::FLIP_XY().contains(VideoTransform::ROT_180()));

    let timeline = MetaSyncTimeline::from_raw(spa_meta_sync_timeline {
        flags: 3,
        padding: 4,
        acquire_point: 100,
        release_point: 200,
    });
    assert_eq!(timeline.flags(), 3);
    assert_eq!(timeline.padding(), 4);
    assert_eq!(timeline.acquire_point(), 100);
    assert_eq!(timeline.release_point(), 200);
}

#[test]
fn metadata_types() {
    assert_eq!(MetaHeader::META_TYPE, 1);
    assert_eq!(VideoCrop::META_TYPE, 2);
    assert_eq!(VideoDamage::META_TYPE, 3);
    assert_eq!(MetaBitmap::META_TYPE, 4);
    assert_eq!(MetaCursor::META_TYPE, 5);
    assert_eq!(MetaControl::META_TYPE, 6);
    assert_eq!(MetaBusy::META_TYPE, 7);
    assert_eq!(MetaVideoTransform::META_TYPE, 8);
    assert_eq!(MetaSyncTimeline::META_TYPE, 9);
}

#[test]
fn unknown_data_type_kept_as_is() {
    let data = Data::from_raw(spa_data {
        type_: 100,
        flags: 0,
        fd: 0,
        mapoffset: 0,
        maxsize: 0,
        data: None,
        chunk: None,
    });
    assert_eq!(data.type_().as_raw(), 100);
    assert!(data.type_() != DataType::Invalid());
    assert_eq!(data.type_().debug_name(), "DataType::Unknown");
}

#[test]
fn size_mut_keeps_other_fields() {
    let mut chunk = Chunk::from_raw(chunk_raw());
    let flags = chunk.flags();
    *chunk.size_mut() = 1;
    assert!(chunk.flags() == flags);
    assert_eq!(chunk.stride(), 64);
    assert_eq!(chunk.offset(), 16);
}
