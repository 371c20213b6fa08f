use rect_compute::assemble::assemble;
use rect_compute::codec::{
    decode_points, decode_sentinels, encode_points, encode_rect, i32_from_le, push_i32_le,
};
use rect_compute::filter::compute;
use rect_compute::geometry::{classify, classify_all, inside, ComputeRect, Point, INSIDE_SENTINEL};
use rect_compute::pipeline::{plan_dispatch, read_back};

fn pt(x: i32, y: i32) -> Point {
    Point { x, y }
}

fn rect(min_x: i32, min_y: i32, max_x: i32, max_y: i32) -> ComputeRect {
    ComputeRect {
        min: pt(min_x, min_y),
        max: pt(max_x, max_y),
    }
}

#[test]
fn compute_mixed_scenario() {
    let points = vec![pt(0, 0), pt(5, 5), pt(10, 10), pt(-1, -1)];
    let r = rect(0, 0, 5, 5);
    assert_eq!(compute(&points, &r), vec![pt(0, 0), pt(5, 5)]);
}

#[test]
fn compute_single_point_outside() {
    let points = vec![pt(1, 1)];
    let r = rect(2, 2, 3, 3);
    assert_eq!(compute(&points, &r), Vec::<Point>::new());
}

#[test]
fn compute_empty_input() {
    let points: Vec<Point> = Vec::new();
    assert_eq!(compute(&points, &rect(-3, -3, 3, 3)), Vec::<Point>::new());
}

#[test]
fn compute_covering_rect_is_identity() {
    let points = vec![pt(7, -2), pt(-100, 4), pt(0, 0), pt(99, 99)];
    let r = rect(i32::MIN, i32::MIN, i32::MAX, i32::MAX);
    assert_eq!(compute(&points, &r), points);
}

#[test]
fn compute_twice_same_result() {
    let points = vec![pt(2, 3), pt(-4, 1), pt(6, 6)];
    let r = rect(-4, 0, 6, 5);
    let first = compute(&points, &r);
    let second = compute(&points, &r);
    assert_eq!(first, second);
}

#[test]
fn compute_single_point_inside() {
    let points = vec![pt(4, 4)];
    let r = rect(0, 0, 5, 5);
    assert_eq!(compute(&points, &r), vec![pt(4, 4)]);
}

#[test]
fn compute_inverted_rect_is_empty() {
    let points = vec![pt(0, 0), pt(2, 2), pt(3, 3)];
    let r = rect(3, 3, 1, 1);
    assert_eq!(compute(&points, &r), Vec::<Point>::new());
}

#[test]
fn inside_is_boundary_inclusive() {
    let r = rect(0, 0, 4, 4);
    assert!(inside(pt(0, 2), r));
    assert!(inside(pt(4, 2), r));
    assert!(inside(pt(2, 0), r));
    assert!(inside(pt(2, 4), r));
    assert!(inside(pt(0, 0), r));
    assert!(inside(pt(4, 4), r));
    assert!(!inside(pt(-1, 2), r));
    assert!(!inside(pt(5, 2), r));
    assert!(!inside(pt(2, -1), r));
    assert!(!inside(pt(2, 5), r));
}

#[test]
fn classify_follows_kernel_convention() {
    let r = rect(0, 0, 4, 4);
    assert_eq!(classify(pt(1, 1), r), INSIDE_SENTINEL);
    assert_eq!(classify(pt(1, 1), r), -1);
    assert_eq!(classify(pt(9, 1), r), 0);
}

#[test]
fn classify_all_lines_up_with_points() {
    let points = vec![pt(0, 0), pt(9, 9), pt(3, 3)];
    let r = rect(0, 0, 4, 4);
    assert_eq!(classify_all(&points, &r), vec![-1, 0, -1]);
}

#[test]
fn assemble_keeps_only_inside_sentinels() {
    let points = vec![pt(1, 1), pt(2, 2), pt(3, 3), pt(4, 4)];
    let sentinels = vec![-1, 0, 7, -1];
    assert_eq!(assemble(&points, &sentinels), vec![pt(1, 1), pt(4, 4)]);
}

#[test]
fn assemble_scans_the_last_index() {
    let points = vec![pt(1, 1), pt(2, 2)];
    let sentinels = vec![0, -1];
    assert_eq!(assemble(&points, &sentinels), vec![pt(2, 2)]);
}

#[test]
fn assemble_single_point() {
    let points = vec![pt(8, -8)];
    assert_eq!(assemble(&points, &vec![-1]), vec![pt(8, -8)]);
    assert_eq!(assemble(&points, &vec![0]), Vec::<Point>::new());
}

#[test]
fn i32_round_trips_through_bytes() {
    for x in [0, 1, -1, 256, -256, 0x1234_5678, i32::MIN, i32::MAX] {
        let mut bytes: Vec<u8> = Vec::new();
        push_i32_le(&mut bytes, x);
        assert_eq!(bytes.len(), 4);
        assert_eq!(i32_from_le(bytes[0], bytes[1], bytes[2], bytes[3]), x);
    }
}

#[test]
fn i32_le_exact_bytes() {
    let mut bytes: Vec<u8> = Vec::new();
    push_i32_le(&mut bytes, 0x1234_5678);
    assert_eq!(bytes, vec![0x78, 0x56, 0x34, 0x12]);
    let mut neg: Vec<u8> = Vec::new();
    push_i32_le(&mut neg, -1);
    assert_eq!(neg, vec![0xFF, 0xFF, 0xFF, 0xFF]);
    let mut two: Vec<u8> = Vec::new();
    push_i32_le(&mut two, -2);
    assert_eq!(two, vec![0xFE, 0xFF, 0xFF, 0xFF]);
}

#[test]
fn rect_uniform_layout_in_binding_order() {
    let r = rect(1, 2, 3, 4);
    let bytes = encode_rect(&r);
    assert_eq!(
        bytes,
        vec![1, 0, 0, 0, 2, 0, 0, 0, 3, 0, 0, 0, 4, 0, 0, 0]
    );
}

#[test]
fn point_buffer_round_trips() {
    let points = vec![pt(1, -2), pt(300, 70000), pt(i32::MIN, i32::MAX)];
    let bytes = encode_points(&points);
    assert_eq!(bytes.len(), 24);
    assert_eq!(decode_points(&bytes), points);
}

#[test]
fn sentinel_buffer_decodes() {
    let mut bytes: Vec<u8> = Vec::new();
    push_i32_le(&mut bytes, -1);
    push_i32_le(&mut bytes, 0);
    push_i32_le(&mut bytes, -1);
    assert_eq!(decode_sentinels(&bytes), vec![-1, 0, -1]);
}

#[test]
fn plan_sizes_match_point_count() {
    let points = vec![pt(0, 0), pt(1, 1), pt(2, 2)];
    let r = rect(0, 0, 2, 2);
    let plan = plan_dispatch(&points, &r);
    assert_eq!(plan.point_data.len(), 24);
    assert_eq!(plan.rect_data.len(), 16);
    assert_eq!(plan.point_buffer_len, 24);
    assert_eq!(plan.sentinel_buffer_len, 12);
    assert_eq!(plan.workgroups, 3);
}

#[test]
fn plan_with_zero_points_is_legal() {
    let points: Vec<Point> = Vec::new();
    let plan = plan_dispatch(&points, &rect(0, 0, 1, 1));
    assert_eq!(plan.point_buffer_len, 0);
    assert_eq!(plan.sentinel_buffer_len, 0);
    assert_eq!(plan.workgroups, 0);
    assert!(plan.point_data.is_empty());
}

#[test]
fn read_back_reassembles_staging_buffers() {
    let points = vec![pt(0, 0), pt(5, 5), pt(10, 10), pt(-1, -1)];
    let r = rect(0, 0, 5, 5);
    let point_bytes = encode_points(&points);
    let mut sentinel_bytes: Vec<u8> = Vec::new();
    for s in classify_all(&points, &r) {
        push_i32_le(&mut sentinel_bytes, s);
    }
    let out = read_back(&point_bytes, &sentinel_bytes);
    assert_eq!(out, vec![pt(0, 0), pt(5, 5)]);
}

#[test]
fn read_back_single_point() {
    let points = vec![pt(3, 3)];
    let r = rect(0, 0, 5, 5);
    let point_bytes = encode_points(&points);
    let mut sentinel_bytes: Vec<u8> = Vec::new();
    push_i32_le(&mut sentinel_bytes, classify(points[0], r));
    assert_eq!(read_back(&point_bytes, &sentinel_bytes), vec![pt(3, 3)]);
}
