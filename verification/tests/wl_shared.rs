use hyprcrop_platform::domain::error::AppError;
use hyprcrop_platform::platform::capture::wl_shared::{
    bytes_per_pixel, decode_pixel, read_pixel_rgba, shm_failure, shm_layout, unsupported_format,
    Format, PixelError, Rgba, ShmLayout, ShmStage, WEnum,
};
use wayland_client::protocol::wl_shm;

fn wayland_text<T: std::fmt::Debug>(result: Result<T, AppError>) -> String {
    match result {
        Err(AppError::Wayland(text)) => text,
        other => panic!("expected a Wayland error, got {other:?}"),
    }
}

#[test]
fn reports_shm_pixel_sizes() {
    assert_eq!(bytes_per_pixel(WEnum::Value(Format::Xrgb8888)), 4);
    assert_eq!(bytes_per_pixel(WEnum::Value(Format::Rgb888)), 3);
    assert_eq!(bytes_per_pixel(WEnum::Value(Format::Bgr888)), 3);
}

#[test]
fn decodes_rgb888() {
    let pixel = read_pixel_rgba(&[0x10, 0x20, 0x30], 0, WEnum::Value(Format::Rgb888));
    assert_eq!(pixel, Rgba([0x10, 0x20, 0x30, 255]));
}

#[test]
fn decodes_bgr888() {
    // wl_shm BGR888 is stored as [B, G, R].
    let pixel = read_pixel_rgba(&[0x30, 0x20, 0x10], 0, WEnum::Value(Format::Bgr888));
    assert_eq!(pixel, Rgba([0x10, 0x20, 0x30, 255]));
}

#[test]
fn decodes_24_bit_pixel_after_row_padding() {
    let data = [0xff, 0xff, 0xff, 0x30, 0x20, 0x10, 0xaa];
    let pixel = read_pixel_rgba(&data, 3, WEnum::Value(Format::Bgr888));
    assert_eq!(pixel, Rgba([0x10, 0x20, 0x30, 255]));
}

#[test]
fn decodes_32_bit_pixels() {
    let data = [1, 2, 3, 4];
    let read = |format| read_pixel_rgba(&data, 0, WEnum::Value(format));
    assert_eq!(read(Format::Argb8888), Rgba([3, 2, 1, 4]));
    assert_eq!(read(Format::Xrgb8888), Rgba([3, 2, 1, 255]));
    assert_eq!(read(Format::Abgr8888), Rgba([1, 2, 3, 4]));
    assert_eq!(read(Format::Xbgr8888), Rgba([1, 2, 3, 255]));
}

#[test]
fn other_formats_have_no_pixels() {
    let data = [9; 16];
    for format in [WEnum::Value(Format::Other(2)), WEnum::Unknown(0), WEnum::Unknown(77)] {
        assert_eq!(bytes_per_pixel(format), 0);
        assert_eq!(decode_pixel(&data, 0, format), Err(PixelError::OutOfBounds));
        assert_eq!(read_pixel_rgba(&data, 0, format), Rgba([0, 0, 0, 0]));
    }
}

#[test]
fn pixels_outside_the_buffer_are_transparent_black() {
    let data = [7, 7, 7, 7, 7];
    let format = WEnum::Value(Format::Argb8888);
    assert_eq!(decode_pixel(&data, 1, format), Ok(Rgba([7, 7, 7, 7])));
    assert_eq!(decode_pixel(&data, 2, format), Err(PixelError::OutOfBounds));
    assert_eq!(read_pixel_rgba(&data, 2, format), Rgba([0, 0, 0, 0]));
    assert_eq!(decode_pixel(&data, usize::MAX - 3, format), Err(PixelError::OffsetOverflow));
    assert_eq!(decode_pixel(&data, usize::MAX - 4, format), Err(PixelError::OutOfBounds));
    assert_eq!(read_pixel_rgba(&data, usize::MAX, format), Rgba([0, 0, 0, 0]));
}

#[test]
fn a_read_looks_at_its_own_bytes_alone() {
    let a = [0, 1, 2, 3, 4, 0];
    let b = [9, 1, 2, 3, 4, 9];
    for format in [Format::Argb8888, Format::Xbgr8888, Format::Rgb888] {
        let format = WEnum::Value(format);
        assert_eq!(read_pixel_rgba(&a, 1, format), read_pixel_rgba(&b, 1, format));
    }
}

#[test]
fn exchanged_formats_mirror_exchanged_bytes() {
    let bytes = [10, 20, 30, 40];
    let mirrored = [30, 20, 10, 40];
    let pairs = [
        (Format::Argb8888, Format::Abgr8888),
        (Format::Xrgb8888, Format::Xbgr8888),
        (Format::Bgr888, Format::Rgb888),
    ];
    for (first, second) in pairs {
        assert_eq!(
            read_pixel_rgba(&bytes, 0, WEnum::Value(first)),
            read_pixel_rgba(&mirrored, 0, WEnum::Value(second))
        );
    }
}

#[test]
fn wire_codes_are_those_of_the_protocol() {
    let pairs = [
        (wl_shm::Format::Argb8888, Format::Argb8888),
        (wl_shm::Format::Xrgb8888, Format::Xrgb8888),
        (wl_shm::Format::Xbgr8888, Format::Xbgr8888),
        (wl_shm::Format::Abgr8888, Format::Abgr8888),
        (wl_shm::Format::Rgb888, Format::Rgb888),
        (wl_shm::Format::Bgr888, Format::Bgr888),
    ];
    for (wire, format) in pairs {
        assert_eq!(Format::from_code(u32::from(wire)), format);
        assert_eq!(format.name(), format!("{wire:?}"));
    }
    let yuyv = u32::from(wl_shm::Format::Yuyv);
    assert_eq!(Format::from_code(yuyv), Format::Other(yuyv));
    assert_eq!(Format::Other(yuyv).name(), "Yuyv");
}

#[test]
fn lays_out_a_frame() {
    assert_eq!(
        shm_layout(100, 50, 512, Format::Xrgb8888).unwrap(),
        ShmLayout { size: 25600, pool_size: 25600, width: 100, height: 50, stride: 512 }
    );
    assert_eq!(
        shm_layout(100, 50, 300, Format::Bgr888).unwrap(),
        ShmLayout { size: 15000, pool_size: 15000, width: 100, height: 50, stride: 300 }
    );
    assert_eq!(shm_layout(0, 0, 0, Format::Rgb888).unwrap().size, 0);
}

#[test]
fn lays_out_up_to_the_largest_pool() {
    let layout = shm_layout(1, 1, i32::MAX as u32, Format::Argb8888).unwrap();
    assert_eq!(layout.pool_size, i32::MAX);
    assert_eq!(layout.stride, i32::MAX);
    assert_eq!(
        wayland_text(shm_layout(1, 1, i32::MAX as u32 + 1, Format::Argb8888)),
        "shm pool size too large: 2147483648 bytes (max 2147483647)"
    );
    assert_eq!(
        wayland_text(shm_layout(16384, 65536, 65536, Format::Argb8888)),
        "shm pool size too large: 4294967296 bytes (max 2147483647)"
    );
}

#[test]
fn numbers_of_an_empty_frame_keep_their_bits() {
    let layout = shm_layout(1, 0, u32::MAX, Format::Argb8888).unwrap();
    assert_eq!(
        layout,
        ShmLayout { size: 0, pool_size: 0, width: 1, height: 0, stride: -1 }
    );
    let layout = shm_layout(0, 0x8000_0000, 0, Format::Rgb888).unwrap();
    assert_eq!(layout.height, i32::MIN);
}

#[test]
fn refuses_a_stride_that_is_too_small() {
    assert_eq!(
        wayland_text(shm_layout(100, 50, 399, Format::Xrgb8888)),
        "invalid stride: stride=399 width=100 (expected ≥400)"
    );
    assert_eq!(
        wayland_text(shm_layout(100, 50, 299, Format::Rgb888)),
        "invalid stride: stride=299 width=100 (expected ≥300)"
    );
}

#[test]
fn refuses_a_format_that_cannot_be_read() {
    let code = u32::from(wl_shm::Format::Nv12);
    assert_eq!(
        wayland_text(shm_layout(1, 1, 4, Format::from_code(code))),
        "unsupported wl_shm format for buffer allocation: Nv12"
    );
    assert_eq!(
        wayland_text::<()>(Err(unsupported_format("Zzz"))),
        "unsupported wl_shm format for buffer allocation: Zzz"
    );
}

#[test]
fn pixels_of_a_laid_out_frame_are_readable_and_disjoint() {
    let (width, height, stride) = (3u32, 2u32, 11u32);
    let format = Format::Rgb888;
    let layout = shm_layout(width, height, stride, format).unwrap();
    let mut data = vec![0u8; layout.size];
    for y in 0..height {
        for x in 0..width {
            let offset = (y * stride + x * 3) as usize;
            data[offset] += 1 + (y * width + x) as u8;
        }
    }
    for y in 0..height {
        for x in 0..width {
            let offset = (y * stride + x * 3) as usize;
            let pixel = decode_pixel(&data, offset, WEnum::Value(format)).unwrap();
            assert_eq!(pixel, Rgba([1 + (y * width + x) as u8, 0, 0, 255]));
        }
    }
}

#[test]
fn failures_to_obtain_memory_name_their_stage() {
    let text = |stage| match shm_failure(stage, "ENOMEM: Out of memory") {
        AppError::Wayland(text) => text,
        other => panic!("unexpected {other:?}"),
    };
    assert_eq!(text(ShmStage::Creating), "memfd_create failed: ENOMEM: Out of memory");
    assert_eq!(text(ShmStage::Resizing), "ftruncate failed: ENOMEM: Out of memory");
    assert_eq!(text(ShmStage::Mapping), "mmap failed: ENOMEM: Out of memory");
}
