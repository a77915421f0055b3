use h2frame::{pack_header, FrameIR, RawFrame};

/// Tests that constructing a `RawFrame` from a `Vec<u8>` through the
/// unchecked owned-buffer constructor works as expected.
#[test]
fn test_raw_frame_from_vec_buffer_unchecked() {
    // Correct frame
    {
        let data = b"123";
        let header = (data.len() as u32, 0x1, 0, 1);
        let buf = {
            let mut buf = Vec::new();
            buf.extend(pack_header(&header).to_vec().into_iter());
            buf.extend(data.to_vec().into_iter());
            buf
        };
        let buf_clone = buf.clone();

        let raw = RawFrame::from_vec_unchecked(buf);

        assert_eq!(raw.header(), header);
        assert_eq!(raw.payload(), data);
        assert_eq!(raw.serialize(), buf_clone);
    }
    // Correct frame with trailing data
    {
        let data = b"123";
        let header = (data.len() as u32, 0x1, 0, 1);
        let buf = {
            let mut buf = Vec::new();
            buf.extend(pack_header(&header).to_vec().into_iter());
            buf.extend(data.to_vec().into_iter());
            buf.extend(b"12345".to_vec().into_iter());
            buf
        };
        let buf_clone = buf.clone();

        let raw = RawFrame::from_vec_unchecked(buf);

        assert_eq!(raw.header(), header);
        assert_eq!(raw.payload(), b"12312345");
        assert_eq!(raw.serialize(), buf_clone);
    }
    // Missing payload chunk
    {
        let data = b"123";
        let header = (data.len() as u32, 0x1, 0, 1);
        let buf = {
            let mut buf = Vec::new();
            buf.extend(pack_header(&header).to_vec().into_iter());
            buf.extend(data[..2].to_vec().into_iter());
            buf
        };
        let buf_clone = buf.clone();

        let raw = RawFrame::from_vec_unchecked(buf);

        assert_eq!(raw.header(), header);
        assert_eq!(raw.payload(), b"12");
        assert_eq!(raw.serialize(), buf_clone);
    }
    // Missing header chunk
    {
        let header = (0, 0x1, 0, 1);
        let buf = {
            let mut buf = Vec::new();
            buf.extend(pack_header(&header)[..5].to_vec().into_iter());
            buf
        };
        let buf_clone = buf.clone();

        let raw = RawFrame::from_vec_unchecked(buf);

        assert_eq!(raw.serialize(), buf_clone);
    }
    // Completely empty buffer
    {
        assert_eq!(RawFrame::from_vec_unchecked(vec![]).serialize(), &[]);
    }
}

/// Tests that a borrowed slice can be converted into a `RawFrame` through
/// the unchecked zero-copy constructor.
#[test]
fn test_from_slice() {
    let buf = &b""[..];
    let frame = RawFrame::from_slice_unchecked(buf);
    assert_eq!(frame.as_bytes(), buf);
}

/// Tests that the `RawFrame::serialize` method correctly serializes a
/// `RawFrame`.
#[test]
fn test_raw_frame_serialize() {
    let data = b"123";
    let header = (data.len() as u32, 0x1, 0, 1);
    let buf = {
        let mut buf = Vec::new();
        buf.extend(pack_header(&header).to_vec().into_iter());
        buf.extend(data.to_vec().into_iter());
        buf
    };
    let raw = RawFrame::from_vec_unchecked(buf.clone());

    assert_eq!(raw.serialize(), buf);
}

/// Tests that converting a `RawFrame` into a `Vec` works correctly.
#[test]
fn test_raw_frame_into_vec() {
    let data = b"123";
    let header = (data.len() as u32, 0x1, 0, 1);
    let buf = {
        let mut buf = Vec::new();
        buf.extend(pack_header(&header).to_vec().into_iter());
        buf.extend(data.to_vec().into_iter());
        buf
    };
    let raw = RawFrame::from_vec_unchecked(buf.clone());

    let serialized = raw.serialize();
    let vec: Vec<u8> = raw.into_vec();
    // The vector is equivalent to the original buffer?
    assert_eq!(vec, buf);
    // The vector and the serialized representation are also equivalent
    assert_eq!(vec, serialized);
}

/// Tests that `RawFrame`s are correctly serialized to an on-the-wire
/// format, when considered a `FrameIR` implementation.
#[test]
fn test_raw_frame_as_frame_ir() {
    let data = b"123";
    let header = (data.len() as u32, 0x1, 0, 1);
    let buf = {
        let mut buf = Vec::new();
        buf.extend(pack_header(&header).to_vec().into_iter());
        buf.extend(data.to_vec().into_iter());
        buf
    };
    let raw = RawFrame::from_vec_unchecked(buf.clone());

    let mut serialized: Vec<u8> = Vec::new();
    raw.serialize_into(&mut serialized).unwrap();

    assert_eq!(serialized, buf);
}

/// Tests the `len` method of the `RawFrame`.
#[test]
fn test_raw_frame_len() {
    {
        // Not enough bytes for even the header of the frame
        let buf = b"123";
        let frame = RawFrame::from_slice_unchecked(&buf[..]);
        assert_eq!(buf.len(), frame.len());
    }
    {
        // Full header, but not enough bytes for the payload
        let buf = vec![0, 0, 1, 0, 0, 0, 0, 0, 0];
        let frame = RawFrame::from_slice_unchecked(&buf[..]);
        assert_eq!(buf.len(), frame.len());
    }
    {
        let buf = vec![0, 0, 1, 0, 0, 0, 0, 0, 0, 1];
        let frame = RawFrame::from_slice_unchecked(&buf[..]);
        assert_eq!(buf.len(), frame.len());
    }
}
