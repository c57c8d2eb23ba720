use rata_pi::layout::{body_layout, body_offset, body_slots};
use rata_pi::mouse::Rect;

#[test]
fn body_follows_the_tail_by_default() {
    let hs = vec![3u16, 4, 5];
    assert_eq!(body_offset(&hs, 6, None, None), (6, 6));
    assert_eq!(body_slots(&hs, 6, 6), vec![(1, 0, 3, 1), (2, 1, 0, 5)]);
}

#[test]
fn body_centres_the_focused_card_and_clamps_the_scroll() {
    let hs = vec![3u16, 4, 5];
    // Card 1 spans rows 3..7; its middle (5) goes to the viewport's middle (3).
    assert_eq!(body_offset(&hs, 6, Some(1), None).0, 2);
    // A focus past the end centres nothing past the last row.
    assert_eq!(body_offset(&hs, 6, Some(9), None).0, 6);
    assert_eq!(body_offset(&hs, 6, None, Some(1)).0, 1);
    assert_eq!(body_offset(&hs, 6, None, Some(500)).0, 6);
    // Everything fits: no offset at all.
    assert_eq!(body_offset(&hs, 40, None, None), (0, 0));
    assert_eq!(body_slots(&hs, 40, 0), vec![(0, 0, 0, 3), (1, 3, 0, 4), (2, 7, 0, 5)]);
}

#[test]
fn body_layout_places_cards_and_the_live_tail_chip() {
    let hs = vec![3u16, 4, 5];
    let content = Rect { x: 1, y: 2, width: 40, height: 6 };
    let (off, rects, chip) = body_layout(&hs, content, None, Some(1));
    assert_eq!(off, 1);
    assert_eq!(
        rects,
        vec![
            (0, Rect { x: 1, y: 2, width: 40, height: 2 }),
            (1, Rect { x: 1, y: 4, width: 40, height: 4 }),
        ]
    );
    assert_eq!(chip, Some(Rect { x: 11, y: 7, width: 19, height: 1 }));
    // Following the tail: no chip.
    let (_, _, chip) = body_layout(&hs, content, None, None);
    assert_eq!(chip, None);
}
