use ratatui::buffer::Buffer;
use ratatui::layout::Rect;
use ratatui::widgets::{Paragraph, WidgetRef};
use ratatui_bevy::compositor::{Region, ScopedWidget, WidgetsToDraw};

fn rect(r: Region) -> Rect {
    Rect::new(r.x, r.y, r.width, r.height)
}

fn paint(units: Vec<ScopedWidget<Paragraph<'static>>>, buf: &mut Buffer) {
    let bounds = Region::new(buf.area.x, buf.area.y, buf.area.width, buf.area.height);
    for unit in units {
        let area = unit.area.clip(&bounds);
        unit.widget.render_ref(rect(area), buf);
    }
}

fn row(buf: &Buffer, y: u16) -> String {
    (0..buf.area.width).map(|x| buf[(x, y)].symbol().to_string()).collect()
}

fn z_orders<W>(units: &[ScopedWidget<W>]) -> Vec<u32> {
    units.iter().map(|u| u.z_order).collect()
}

#[test]
fn higher_order_overwrites_overlap() {
    let mut queue = WidgetsToDraw::new();
    queue.push_widget(Paragraph::new("AAAAAAAAAA"), Region::new(0, 0, 10, 1), 0);
    queue.push_widget(Paragraph::new("BBBBB"), Region::new(0, 0, 5, 1), 1);
    let mut buf = Buffer::empty(Rect::new(0, 0, 10, 1));
    paint(queue.drain_in_paint_order(), &mut buf);
    assert_eq!(row(&buf, 0), "BBBBBAAAAA");
    assert!(queue.widgets.is_empty());
}

#[test]
fn higher_order_wins_even_when_queued_first() {
    let mut queue = WidgetsToDraw::new();
    queue.push_widget(Paragraph::new("BBBBB"), Region::new(0, 0, 5, 1), 7);
    queue.push_widget(Paragraph::new("AAAAAAAAAA"), Region::new(0, 0, 10, 1), 2);
    let mut buf = Buffer::empty(Rect::new(0, 0, 10, 1));
    paint(queue.drain_in_paint_order(), &mut buf);
    assert_eq!(row(&buf, 0), "BBBBBAAAAA");
}

#[test]
fn equal_order_later_insertion_on_top() {
    let mut queue = WidgetsToDraw::new();
    queue.push_widget(Paragraph::new("XXXXXX"), Region::new(0, 0, 6, 1), 3);
    queue.push_widget(Paragraph::new("YYY"), Region::new(2, 0, 3, 1), 3);
    let mut buf = Buffer::empty(Rect::new(0, 0, 6, 1));
    paint(queue.drain_in_paint_order(), &mut buf);
    assert_eq!(row(&buf, 0), "XXYYYX");
}

#[test]
fn drain_is_stable_sort_by_order() {
    let mut queue = WidgetsToDraw::new();
    let keys: [u32; 7] = [5, 1, 5, 0, 1, 9, 0];
    for (i, k) in keys.iter().enumerate() {
        queue.push_widget(i, Region::new(0, 0, 1, 1), *k);
    }
    let units = queue.drain_in_paint_order();
    let order: Vec<usize> = units.iter().map(|u| u.widget).collect();
    assert_eq!(order, vec![3, 6, 1, 4, 0, 2, 5]);
    assert_eq!(z_orders(&units), vec![0, 0, 1, 1, 5, 5, 9]);
    assert!(queue.widgets.is_empty());
}

#[test]
fn drain_of_empty_queue() {
    let mut queue: WidgetsToDraw<u8> = WidgetsToDraw::new();
    assert!(queue.drain_in_paint_order().is_empty());
    assert!(queue.widgets.is_empty());
}

#[test]
fn queue_does_not_keep_units_across_ticks() {
    let mut queue = WidgetsToDraw::new();
    queue.push_widget('a', Region::new(0, 0, 1, 1), 0);
    assert_eq!(queue.drain_in_paint_order().len(), 1);
    queue.push_widget('b', Region::new(0, 0, 1, 1), 0);
    let units = queue.drain_in_paint_order();
    assert_eq!(units.len(), 1);
    assert_eq!(units[0].widget, 'b');
}

#[test]
fn push_keeps_region_unchecked() {
    let mut queue = WidgetsToDraw::new();
    queue.push_widget((), Region::new(500, 500, 40, 40), 4);
    assert_eq!(queue.widgets.len(), 1);
    assert_eq!(queue.widgets[0].area, Region::new(500, 500, 40, 40));
    assert_eq!(queue.widgets[0].z_order, 4);
}

#[test]
fn clip_partly_outside() {
    let bounds = Region::new(0, 0, 20, 5);
    assert_eq!(Region::new(15, 3, 10, 4).clip(&bounds), Region::new(15, 3, 5, 2));
}

#[test]
fn clip_fully_outside_is_empty() {
    let bounds = Region::new(0, 0, 20, 5);
    let r = Region::new(30, 1, 4, 2).clip(&bounds);
    assert_eq!(r.width, 0);
}

#[test]
fn clip_inside_is_unchanged() {
    let bounds = Region::new(0, 0, 20, 5);
    assert_eq!(Region::new(2, 1, 4, 2).clip(&bounds), Region::new(2, 1, 4, 2));
}

#[test]
fn clip_saturates_at_largest_coordinate() {
    let bounds = Region::new(65530, 0, 100, 1);
    assert_eq!(Region::new(65534, 0, 10, 1).clip(&bounds), Region::new(65534, 0, 1, 1));
}

#[test]
fn clip_matches_rect_intersection() {
    let cases = [
        (Region::new(3, 4, 10, 2), Region::new(0, 0, 8, 5)),
        (Region::new(0, 0, 1, 1), Region::new(5, 5, 2, 2)),
        (Region::new(10, 10, 5, 5), Region::new(12, 8, 1, 20)),
    ];
    for (a, b) in cases {
        let ours = rect(a.clip(&b));
        let theirs = rect(a).intersection(rect(b));
        assert_eq!((ours.x, ours.y), (theirs.x, theirs.y));
        assert_eq!(ours.area(), theirs.area());
    }
}

#[test]
fn region_outside_buffer_paints_visible_part() {
    let mut queue = WidgetsToDraw::new();
    queue.push_widget(Paragraph::new("CCCCCC"), Region::new(7, 0, 6, 1), 0);
    let mut buf = Buffer::empty(Rect::new(0, 0, 10, 1));
    paint(queue.drain_in_paint_order(), &mut buf);
    assert_eq!(row(&buf, 0), "       CCC");
}
