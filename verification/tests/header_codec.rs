use h2frame::{pack_header, unpack_header};

/// Tests that the `unpack_header` function correctly returns the
/// components of HTTP/2 frame headers.
#[test]
fn test_unpack_header() {
    {
        let header = [0; 9];
        assert_eq!((0, 0, 0, 0), unpack_header(&header));
    }
    {
        let header = [0, 0, 1, 2, 3, 0, 0, 0, 4];
        assert_eq!((1, 2, 3, 4), unpack_header(&header));
    }
    {
        let header = [0, 0, 1, 200, 100, 0, 0, 0, 4];
        assert_eq!((1, 200, 100, 4), unpack_header(&header));
    }
    {
        let header = [0, 0, 1, 0, 0, 0, 0, 0, 0];
        assert_eq!((1, 0, 0, 0), unpack_header(&header));
    }
    {
        let header = [0, 1, 0, 0, 0, 0, 0, 0, 0];
        assert_eq!((256, 0, 0, 0), unpack_header(&header));
    }
    {
        let header = [1, 0, 0, 0, 0, 0, 0, 0, 0];
        assert_eq!((256 * 256, 0, 0, 0), unpack_header(&header));
    }
    {
        let header = [0, 0, 0, 0, 0, 0, 0, 0, 1];
        assert_eq!((0, 0, 0, 1), unpack_header(&header));
    }
    {
        let header = [0xFF, 0xFF, 0xFF, 0, 0, 0, 0, 0, 1];
        assert_eq!(((1 << 24) - 1, 0, 0, 1), unpack_header(&header));
    }
    {
        let header = [0xFF, 0xFF, 0xFF, 0, 0, 1, 1, 1, 1];
        assert_eq!(
            ((1 << 24) - 1, 0, 0, 1 + (1 << 8) + (1 << 16) + (1 << 24)),
            unpack_header(&header)
        );
    }
    {
        // Ignores reserved bit within the stream id (the most significant bit)
        let header = [0, 0, 1, 0, 0, 0x80, 0, 0, 1];
        assert_eq!((1, 0, 0, 1), unpack_header(&header));
    }
}

/// Tests that the `pack_header` function correctly returns the buffer
/// corresponding to components of HTTP/2 frame headers.
#[test]
fn test_pack_header() {
    {
        let header = [0; 9];
        assert_eq!(pack_header(&(0, 0, 0, 0)), header);
    }
    {
        let header = [0, 0, 1, 2, 3, 0, 0, 0, 4];
        assert_eq!(pack_header(&(1, 2, 3, 4)), header);
    }
    {
        let header = [0, 0, 1, 200, 100, 0, 0, 0, 4];
        assert_eq!(pack_header(&(1, 200, 100, 4)), header);
    }
    {
        let header = [0, 0, 1, 0, 0, 0, 0, 0, 0];
        assert_eq!(pack_header(&(1, 0, 0, 0)), header);
    }
    {
        let header = [0, 1, 0, 0, 0, 0, 0, 0, 0];
        assert_eq!(pack_header(&(256, 0, 0, 0)), header);
    }
    {
        let header = [1, 0, 0, 0, 0, 0, 0, 0, 0];
        assert_eq!(pack_header(&(256 * 256, 0, 0, 0)), header);
    }
    {
        let header = [0, 0, 0, 0, 0, 0, 0, 0, 1];
        assert_eq!(pack_header(&(0, 0, 0, 1)), header);
    }
    {
        let header = [0xFF, 0xFF, 0xFF, 0, 0, 0, 0, 0, 1];
        assert_eq!(pack_header(&((1 << 24) - 1, 0, 0, 1)), header);
    }
    {
        let header = [0xFF, 0xFF, 0xFF, 0, 0, 1, 1, 1, 1];
        let header_components = ((1 << 24) - 1, 0, 0, 1 + (1 << 8) + (1 << 16) + (1 << 24));
        assert_eq!(pack_header(&header_components), header);
    }
}
