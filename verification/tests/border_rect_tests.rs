use border_rect::BorderRect;

#[test]
fn all_sets_every_field() {
    let b = BorderRect::all(7);
    assert_eq!(b.left, 7);
    assert_eq!(b.right, 7);
    assert_eq!(b.top, 7);
    assert_eq!(b.bottom, 7);

    let n = BorderRect::all(-3);
    assert_eq!(n.left, -3);
    assert_eq!(n.right, -3);
    assert_eq!(n.top, -3);
    assert_eq!(n.bottom, -3);
}

#[test]
fn axes_sets_horizontal_and_vertical_pairs() {
    let b = BorderRect::axes(5, -9);
    assert_eq!(b.left, 5);
    assert_eq!(b.right, 5);
    assert_eq!(b.top, -9);
    assert_eq!(b.bottom, -9);
}

#[test]
fn zero_is_all_zero_and_consumes_no_space() {
    let z = BorderRect::zero();
    assert_eq!(z, BorderRect::all(0));
    assert_eq!(z.sum_axes(), (0, 0));
}

#[test]
fn sum_axes_adds_fields_including_negative_ones() {
    let b = BorderRect::from([1, -2, 3, -4]);
    assert_eq!(b.sum_axes(), (-1, -1));

    let c = BorderRect::from([10, 20, 30, 40]);
    assert_eq!(c.sum_axes(), (30, 70));
}

#[test]
fn inflate_equals_accumulating_a_uniform_border() {
    let mut inflated = BorderRect::from([1, 2, 3, 4]);
    inflated.inflate_mut(-5);

    let mut combined = BorderRect::from([1, 2, 3, 4]);
    combined.add_assign(BorderRect::all(-5));

    assert_eq!(inflated, combined);
    assert_eq!(inflated, BorderRect::from([-4, -3, -2, -1]));
}

#[test]
fn accumulation_is_commutative_and_associative() {
    let a = BorderRect::from([1, 2, 3, 4]);
    let b = BorderRect::from([10, -20, 30, -40]);
    let c = BorderRect::from([-7, 8, -9, 11]);

    let mut ab = a;
    ab.add_assign(b);
    let mut ba = b;
    ba.add_assign(a);
    assert_eq!(ab, ba);

    let mut ab_then_c = ab;
    ab_then_c.add_assign(c);

    let mut bc = b;
    bc.add_assign(c);
    let mut a_then_bc = a;
    a_then_bc.add_assign(bc);

    assert_eq!(ab_then_c, a_then_bc);
}

#[test]
fn array_round_trip_keeps_order_and_values() {
    let b = BorderRect::from([-11, 22, -33, 44]);
    assert_eq!([b.left, b.right, b.top, b.bottom], [-11, 22, -33, 44]);
}

#[test]
fn from_scalar_is_uniform() {
    assert_eq!(BorderRect::from(5), BorderRect::all(5));
}

#[test]
fn default_is_the_empty_border() {
    assert_eq!(BorderRect::default(), BorderRect::zero());
}

#[test]
fn scenario_axes_sum() {
    assert_eq!(BorderRect::axes(4, 2).sum_axes(), (8, 4));
}

#[test]
fn scenario_inflate_from_zero() {
    let mut b = BorderRect::zero();
    b.inflate_mut(3);
    assert_eq!(b.left, 3);
    assert_eq!(b.right, 3);
    assert_eq!(b.top, 3);
    assert_eq!(b.bottom, 3);
}

#[test]
fn scenario_from_array() {
    let b = BorderRect::from([1, 2, 3, 4]);
    assert_eq!(b.left, 1);
    assert_eq!(b.right, 2);
    assert_eq!(b.top, 3);
    assert_eq!(b.bottom, 4);
}
