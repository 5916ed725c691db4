use pixel_demo::utils::remap_value;

#[test]
fn remap_scales_into_wider_range() {
    assert_eq!(remap_value(5, (0, 10), (0, 100)), 50);
}

#[test]
fn remap_unit_range_identity() {
    assert_eq!(remap_value(0, (0, 1), (0, 1)), 0);
}

#[test]
fn remap_endpoints_map_to_endpoints() {
    let cases = [((3, 17), (-40, 9)), ((10, 0), (0, 255)), ((-5, 5), (100, -100))];
    for (from, to) in cases {
        assert_eq!(remap_value(from.0, from, to), to.0);
        assert_eq!(remap_value(from.1, from, to), to.1);
    }
}

#[test]
fn remap_does_not_clamp() {
    assert_eq!(remap_value(20, (0, 10), (0, 100)), 200);
    assert_eq!(remap_value(-5, (0, 10), (0, 100)), -50);
}

#[test]
fn remap_rounds_toward_zero() {
    assert_eq!(remap_value(1, (0, 3), (0, 1)), 0);
    assert_eq!(remap_value(-1, (0, 3), (0, 2)), 0);
    assert_eq!(remap_value(2, (0, 3), (0, -2)), -1);
    assert_eq!(remap_value(3, (10, 0), (-5, 5)), 2);
}
