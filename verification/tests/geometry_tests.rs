use clickcapture::geometry::{
    capture_overlay_box, icon_origin, normalized_rect, progress_label_box, resize_handles,
    selection_box, PixelBox, Point, Rect,
};

#[test]
fn drag_in_any_direction_spans_the_same_rect() {
    let a = Point { x: 300, y: 40 };
    let b = Point { x: 100, y: 200 };
    let r = normalized_rect(a, b);
    assert_eq!(r, Rect { left: 100, top: 40, right: 300, bottom: 200 });
    assert_eq!(normalized_rect(b, a), r);
}

#[test]
fn selection_box_is_corner_and_size() {
    let b = selection_box(Point { x: 50, y: 80 }, Point { x: 10, y: 20 });
    assert_eq!(b, PixelBox { x: 10, y: 20, width: 40, height: 60 });
    let z = selection_box(Point { x: 5, y: 5 }, Point { x: 5, y: 5 });
    assert_eq!(z, PixelBox { x: 5, y: 5, width: 0, height: 0 });
}

#[test]
fn handles_sit_on_the_corners() {
    let h = resize_handles(PixelBox { x: 10, y: 20, width: 100, height: 50 });
    assert_eq!(
        h,
        vec![
            PixelBox { x: 2, y: 12, width: 16, height: 16 },
            PixelBox { x: 102, y: 12, width: 16, height: 16 },
            PixelBox { x: 2, y: 62, width: 16, height: 16 },
            PixelBox { x: 102, y: 62, width: 16, height: 16 },
        ]
    );
}

#[test]
fn capture_overlay_follows_the_cursor() {
    assert_eq!(
        capture_overlay_box(Point { x: 500, y: 400 }),
        PixelBox { x: 468, y: 368, width: 230, height: 90 }
    );
    assert_eq!(progress_label_box(), PixelBox { x: 20, y: 33, width: 210, height: 57 });
}

#[test]
fn icon_is_centred_like_integer_division() {
    let r = Rect { left: 10, top: 20, right: 58, bottom: 60 };
    assert_eq!(icon_origin(r, 32), Point { x: 18, y: 24 });
    // A button narrower than the icon: the offset is rounded toward zero.
    let narrow = Rect { left: 0, top: 0, right: 29, bottom: 29 };
    assert_eq!(icon_origin(narrow, 32), Point { x: (29 - 32) / 2, y: (29 - 32) / 2 });
    assert_eq!(icon_origin(narrow, 32), Point { x: -1, y: -1 });
}
