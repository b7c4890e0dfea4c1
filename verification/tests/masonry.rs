use masonry::layout::Layout;
use masonry::layout::Transform;
use masonry::record::transform_record;
use masonry::worker::Computation;
use masonry::worker::MailboxCell;
use masonry::worker::MasonryConfig;
use masonry::worker::MasonryType;
use masonry::worker::MasonryWorker;
use masonry::worker::execute;

fn transform(width: u64, height: u64, top: u64, left: u64) -> Transform {
    Transform { width, height, top, left }
}

#[test]
fn reference_scenario_vertical() {
    let mut w = MasonryWorker::new(3);
    w.set_dimension(0, 100, 50);
    w.set_dimension(1, 200, 80);
    w.set_dimension(2, 150, 60);
    let extent = w.compute_and_wait(900, MasonryType::Vertical, 300, 8);
    assert_eq!(extent, Some(206));
    assert_eq!(w.get_transform(0), transform(100, 50, 0, 0));
    assert_eq!(w.get_transform(1), transform(200, 80, 58, 0));
    assert_eq!(w.get_transform(2), transform(150, 60, 146, 0));
}

#[test]
fn vertical_repeat_is_idempotent() {
    let mut w = MasonryWorker::new(3);
    w.set_dimension(0, 100, 50);
    w.set_dimension(1, 200, 80);
    w.set_dimension(2, 150, 60);
    let first = w.compute_and_wait(900, MasonryType::Vertical, 300, 8);
    let first_transforms = [w.get_transform(0), w.get_transform(1), w.get_transform(2)];
    let second = w.compute_and_wait(900, MasonryType::Vertical, 300, 8);
    let second_transforms = [w.get_transform(0), w.get_transform(1), w.get_transform(2)];
    assert_eq!(first, second);
    assert_eq!(first_transforms, second_transforms);
}

#[test]
fn sequential_usage_is_deterministic() {
    let mut a = MasonryWorker::new(2);
    let mut b = MasonryWorker::new(2);
    for w in [&mut a, &mut b] {
        w.set_dimension(0, 30, 40);
        w.set_dimension(1, 50, 20);
    }
    let ra = a.compute_and_wait(500, MasonryType::Horizontal, 120, 4);
    let rb = b.compute_and_wait(500, MasonryType::Horizontal, 120, 4);
    assert_eq!(ra, rb);
    assert_eq!(a.get_transform(0), b.get_transform(0));
    assert_eq!(a.get_transform(1), b.get_transform(1));
}

#[test]
fn horizontal_single_row() {
    let mut w = MasonryWorker::new(3);
    w.set_dimension(0, 100, 50);
    w.set_dimension(1, 200, 80);
    w.set_dimension(2, 150, 60);
    let extent = w.compute_and_wait(900, MasonryType::Horizontal, 300, 8);
    // lefts: 0, 100 + 8, 108 + 200 + 8; extent: 316 + 150.
    assert_eq!(extent, Some(466));
    assert_eq!(w.get_transform(0), transform(100, 50, 0, 0));
    assert_eq!(w.get_transform(1), transform(200, 80, 0, 108));
    assert_eq!(w.get_transform(2), transform(150, 60, 0, 316));
}

#[test]
fn grid_fills_rows_of_whole_strides() {
    let mut w = MasonryWorker::new(5);
    // Dimensions are ignored by the grid variant; leave them zeroed.
    let extent = w.compute_and_wait(350, MasonryType::Grid, 100, 10);
    // stride 110, three columns fit in 350; two rows; extent 110 + 100.
    assert_eq!(extent, Some(210));
    assert_eq!(w.get_transform(0), transform(100, 100, 0, 0));
    assert_eq!(w.get_transform(1), transform(100, 100, 0, 110));
    assert_eq!(w.get_transform(2), transform(100, 100, 0, 220));
    assert_eq!(w.get_transform(3), transform(100, 100, 110, 0));
    assert_eq!(w.get_transform(4), transform(100, 100, 110, 110));
}

#[test]
fn grid_narrow_width_still_has_one_column() {
    let mut w = MasonryWorker::new(3);
    let extent = w.compute_and_wait(0, MasonryType::Grid, 100, 10);
    // Zero width is legal; everything stacks in a single column.
    assert_eq!(extent, Some(320));
    assert_eq!(w.get_transform(2), transform(100, 100, 220, 0));
}

#[test]
fn grid_zero_stride_is_degenerate() {
    let mut w = MasonryWorker::new(4);
    let extent = w.compute_and_wait(500, MasonryType::Grid, 0, 0);
    assert_eq!(extent, Some(0));
    assert_eq!(w.get_transform(3), transform(0, 0, 0, 0));
}

#[test]
fn width_zero_vertical_is_legal() {
    let mut w = MasonryWorker::new(1);
    w.set_dimension(0, 10, 20);
    let extent = w.compute_and_wait(0, MasonryType::Vertical, 300, 8);
    assert_eq!(extent, Some(20));
}

#[test]
fn empty_layout_has_zero_extent() {
    let mut w = MasonryWorker::new(0);
    assert_eq!(w.compute_and_wait(900, MasonryType::Vertical, 300, 8), Some(0));
    assert_eq!(w.compute_and_wait(900, MasonryType::Horizontal, 300, 8), Some(0));
    assert_eq!(w.compute_and_wait(900, MasonryType::Grid, 300, 8), Some(0));
}

#[test]
fn resize_preserves_data_below_new_length() {
    let mut w = MasonryWorker::new(4);
    w.set_dimension(0, 10, 10);
    w.set_dimension(1, 20, 20);
    w.set_dimension(2, 30, 30);
    w.set_dimension(3, 40, 40);
    w.compute_and_wait(900, MasonryType::Vertical, 300, 5);
    let kept = [w.get_transform(0), w.get_transform(1)];
    w.resize(2);
    assert_eq!(w.get_transform(0), kept[0]);
    assert_eq!(w.get_transform(1), kept[1]);
    // Growing back exposes the still-allocated records untouched.
    w.resize(4);
    assert_eq!(w.get_transform(3), transform(40, 40, 75, 0));
    // The dimension data also survived the shrink-and-grow cycle.
    assert_eq!(
        w.compute_and_wait(900, MasonryType::Vertical, 300, 5),
        Some(115),
    );
}

#[test]
fn resize_grows_with_zeroed_items() {
    let mut w = MasonryWorker::new(1);
    w.set_dimension(0, 10, 10);
    w.resize(3);
    assert_eq!(w.get_transform(2), transform(0, 0, 0, 0));
    let extent = w.compute_and_wait(900, MasonryType::Vertical, 300, 5);
    // heights 10, 0, 0 with two gaps of 5.
    assert_eq!(extent, Some(20));
}

#[test]
fn fresh_items_start_zeroed() {
    let w = MasonryWorker::new(2);
    assert_eq!(w.get_transform(0), transform(0, 0, 0, 0));
    assert_eq!(w.get_transform(1), transform(0, 0, 0, 0));
}

#[test]
fn staged_protocol_round() {
    let mut w = MasonryWorker::new(2);
    w.set_dimension(0, 100, 50);
    w.set_dimension(1, 200, 80);
    w.compute(900, MasonryType::Vertical, 300, 8);
    w.worker_step();
    assert_eq!(w.settle(), Some(138));
    assert_eq!(w.get_transform(1), transform(200, 80, 58, 0));
}

#[test]
fn teardown_while_job_pending() {
    let mut w = MasonryWorker::new(2);
    w.set_dimension(0, 100, 50);
    w.compute(900, MasonryType::Vertical, 300, 8);
    // Destroying with the job still in the mailbox discards it; the pending
    // completion is never resolved and nothing further may run.
    w.destroy();
}

#[test]
fn mailbox_hands_the_job_over_once() {
    let mut m = MailboxCell::new();
    let job = Computation {
        width: 640,
        config: MasonryConfig { kind: MasonryType::Grid, thumbnail_size: 120, padding: 4 },
    };
    m.publish(job);
    assert_eq!(m.wait_and_take(), job);
}

#[test]
fn execute_dispatches_on_the_job_kind() {
    let mut layout = Layout::new(2, 300, 8);
    layout.set_dimension(0, 100, 50);
    layout.set_dimension(1, 200, 80);
    let job = Computation {
        width: 900,
        config: MasonryConfig { kind: MasonryType::Horizontal, thumbnail_size: 300, padding: 8 },
    };
    assert_eq!(execute(job, &mut layout), Some(308));
    assert_eq!(layout.get_transform(1), transform(200, 80, 0, 108));
}

#[test]
fn transform_record_lists_fields_in_order() {
    let t = transform(100, 50, 0, 0);
    assert_eq!(transform_record(&t), "{\"width\":100,\"height\":50,\"top\":0,\"left\":0}");
}

#[test]
fn transform_record_renders_large_values() {
    let t = transform(u64::MAX, 0, 10, 9007199254740993);
    assert_eq!(
        transform_record(&t),
        "{\"width\":18446744073709551615,\"height\":0,\"top\":10,\"left\":9007199254740993}",
    );
}
