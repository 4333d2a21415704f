use pebble::boot::{
    cr4_with_xsave_enabled, find_volume, framebuffer_pages, try_find_volume, CR4_XSAVE_ENABLE_BIT,
};
use pebble::framebuffer::{Framebuffer, FramebufferSystemObjectInfo};

fn framebuffer() -> Framebuffer {
    Framebuffer::new(FramebufferSystemObjectInfo {
        address: 0xb000_0000,
        width: 4,
        height: 3,
        stride: 5,
        pixel_format: 1,
    })
}

fn ucs2(text: &str) -> Vec<u16> {
    text.chars().map(|c| c as u16).collect()
}

#[test]
fn framebuffer_from_info() {
    let framebuffer = framebuffer();
    assert_eq!(framebuffer.address, 0xb000_0000);
    assert_eq!(framebuffer.width, 4);
    assert_eq!(framebuffer.height, 3);
    assert_eq!(framebuffer.stride, 5);
    assert_eq!(framebuffer.span(), 14);
}

#[test]
fn empty_framebuffer_spans_nothing() {
    let framebuffer = Framebuffer::new(FramebufferSystemObjectInfo {
        address: 0,
        width: 8,
        height: 0,
        stride: 8,
        pixel_format: 1,
    });
    assert_eq!(framebuffer.span(), 0);
    let mut memory: Vec<u32> = Vec::new();
    framebuffer.clear(&mut memory, 7);
    assert!(memory.is_empty());
}

#[test]
fn draw_rect_paints_only_the_rectangle() {
    let framebuffer = framebuffer();
    let mut memory = vec![0u32; 15];
    framebuffer.draw_rect(&mut memory, 1, 1, 2, 2, 0xffff_0000);
    let mut expected = vec![0u32; 15];
    for offset in [6, 7, 11, 12] {
        expected[offset] = 0xffff_0000;
    }
    assert_eq!(memory, expected);
}

#[test]
fn draw_rect_twice_is_drawing_once() {
    let framebuffer = framebuffer();
    let mut once = vec![9u32; 14];
    framebuffer.draw_rect(&mut once, 0, 1, 3, 2, 5);
    let mut twice = once.clone();
    framebuffer.draw_rect(&mut twice, 0, 1, 3, 2, 5);
    assert_eq!(once, twice);
}

#[test]
fn empty_rectangle_changes_nothing() {
    let framebuffer = framebuffer();
    let mut memory = vec![3u32; 14];
    framebuffer.draw_rect(&mut memory, 2, 1, 0, 2, 8);
    framebuffer.draw_rect(&mut memory, 2, 1, 2, 0, 8);
    assert_eq!(memory, vec![3u32; 14]);
}

#[test]
fn clear_paints_every_visible_pixel() {
    let framebuffer = framebuffer();
    let mut memory = vec![1u32; 16];
    framebuffer.clear(&mut memory, 0xffff_00ff);
    for y in 0..3 {
        for x in 0..5 {
            let offset = y * 5 + x;
            if x < 4 {
                assert_eq!(memory[offset], 0xffff_00ff);
            } else if offset < 14 {
                assert_eq!(memory[offset], 1);
            }
        }
    }
    assert_eq!(memory[14], 1);
    assert_eq!(memory[15], 1);
}

#[test]
fn finds_the_first_volume_with_the_label() {
    let labels = vec![ucs2("EFI"), ucs2("PEBBLE"), ucs2("PEBBLE")];
    assert_eq!(find_volume(&labels, "PEBBLE"), Some(1));
    assert_eq!(find_volume(&labels, "EFI"), Some(0));
    assert_eq!(find_volume(&labels, "PEBBL"), None);
    assert_eq!(find_volume(&labels, "pebble"), None);
    assert_eq!(find_volume(&Vec::new(), "PEBBLE"), None);
}

#[test]
fn labels_decode_beyond_ascii() {
    let labels = vec![ucs2("Café"), ucs2("€uro"), ucs2("")];
    assert_eq!(find_volume(&labels, "Café"), Some(0));
    assert_eq!(find_volume(&labels, "€uro"), Some(1));
    assert_eq!(find_volume(&labels, ""), Some(2));
    assert_eq!(find_volume(&labels, "Cafe"), None);
}

#[test]
fn framebuffer_memory_object_pages() {
    assert_eq!(framebuffer_pages(1024, 768), 768);
    assert_eq!(framebuffer_pages(800, 600), 469);
    assert_eq!(framebuffer_pages(1, 1), 1);
    assert_eq!(framebuffer_pages(0, 600), 0);
}

#[test]
fn xsave_bit_is_set_and_the_rest_kept() {
    assert_eq!(CR4_XSAVE_ENABLE_BIT, 18);
    assert_eq!(cr4_with_xsave_enabled(0), 1 << 18);
    assert_eq!(cr4_with_xsave_enabled(0x20 | 0x1000), 0x20 | 0x1000 | (1 << 18));
    assert_eq!(cr4_with_xsave_enabled(1 << 18), 1 << 18);
    assert_eq!(cr4_with_xsave_enabled(u64::MAX), u64::MAX);
}

#[test]
fn rows_wider_than_the_stride_overlap() {
    let framebuffer = Framebuffer::new(FramebufferSystemObjectInfo {
        address: 0,
        width: 6,
        height: 2,
        stride: 4,
        pixel_format: 1,
    });
    assert_eq!(framebuffer.span(), 10);
    let mut memory = vec![0u32; 11];
    framebuffer.clear(&mut memory, 2);
    assert_eq!(memory, vec![2, 2, 2, 2, 2, 2, 2, 2, 2, 2, 0]);
}

#[test]
fn undecodable_labels_before_a_match_are_reported() {
    let long = ucs2("THIS-VOLUME-LABEL-IS-MUCH-TOO-LONG");
    let surrogate = vec![0xD800u16, 0x41];
    assert_eq!(try_find_volume(&vec![long.clone(), ucs2("PEBBLE")], "PEBBLE"), None);
    assert_eq!(try_find_volume(&vec![surrogate.clone()], "A"), None);
    assert_eq!(try_find_volume(&vec![ucs2("PEBBLE"), long, surrogate], "PEBBLE"), Some(Some(0)));
    assert_eq!(try_find_volume(&vec![ucs2("EFI"), ucs2("PEBBLE")], "BOOT"), Some(None));
    let exactly_32 = ucs2("ABCDEFGHIJKLMNOPQRSTUVWXYZ012345");
    assert_eq!(try_find_volume(&vec![exactly_32], "ABCDEFGHIJKLMNOPQRSTUVWXYZ012345"), Some(Some(0)));
}
