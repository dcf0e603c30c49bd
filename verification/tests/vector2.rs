use vector::Vector2;

#[test]
fn test_vector2_add() {
    let v1 = Vector2::<i32> { e0: 2, e1: 6 };
    let v2 = Vector2::<i32> { e0: 4, e1: 8 };
    let v3 = v1 + v2;

    assert_eq!(v3.e0, 6);
    assert_eq!(v3.e1, 14);
}

#[test]
fn test_vector2_sub() {
    let v1 = Vector2::<i32> { e0: 7, e1: 8 };
    let v2 = Vector2::<i32> { e0: 2, e1: 9 };
    let v3 = v1 - v2;

    assert_eq!(v3.e0, 5);
    assert_eq!(v3.e1, -1);
}

#[test]
fn test_vector2_neg() {
    let v1 = Vector2::<i32> { e0: 1, e1: -1 };
    let v2 = -v1;

    assert_eq!(v2.e0, -1);
    assert_eq!(v2.e1, 1);
}

#[test]
fn test_vector2_dot() {
    let v1 = Vector2::<i32> { e0: 2, e1: 3 };
    let v2 = Vector2::<i32> { e0: 4, e1: 5 };
    let s = v1 * v2;

    assert_eq!(s, 23);
}

#[test]
fn test_vector2_mut_scalar() {
    let v1 = Vector2::<i32>::new(1, 2);
    let v2 = v1 * 2;

    assert_eq!(v2.e0, 2);
    assert_eq!(v2.e1, 4);
}

#[test]
fn test_new_sets_components() {
    let v = Vector2::<i32>::new(-7, 11);

    assert_eq!(v.e0, -7);
    assert_eq!(v.e1, 11);
}

#[test]
fn test_get_in_bounds() {
    let v = Vector2::<i32> { e0: 1, e1: 2 };

    assert_eq!(v.get(0), 1);
    assert_eq!(v.get(1), 2);
}

#[test]
fn test_add_is_componentwise() {
    let a = Vector2::<i64> { e0: -3, e1: 9 };
    let b = Vector2::<i64> { e0: 10, e1: -20 };
    let c = a + b;

    assert_eq!(c.e0, a.e0 + b.e0);
    assert_eq!(c.e1, a.e1 + b.e1);
}

#[test]
fn test_sub_then_add_cancels() {
    let a = Vector2::<i64> { e0: 100, e1: -55 };
    let b = Vector2::<i64> { e0: 17, e1: 44 };
    let c = (a - b) + b;

    assert_eq!(c.e0, a.e0);
    assert_eq!(c.e1, a.e1);
}

#[test]
fn test_neg_is_involution() {
    let a = Vector2::<i64> { e0: 12, e1: -34 };
    let b = -(-a);

    assert_eq!(b.e0, a.e0);
    assert_eq!(b.e1, a.e1);
}

#[test]
fn test_dot_is_commutative() {
    let a = Vector2::<i64> { e0: -6, e1: 7 };
    let b = Vector2::<i64> { e0: 8, e1: 9 };

    assert_eq!(a * b, b * a);
    assert_eq!(a * b, -6 * 8 + 7 * 9);
}

#[test]
fn test_scale_is_componentwise() {
    let a = Vector2::<i64> { e0: -5, e1: 21 };
    let s: i64 = 3;
    let b = a * s;

    assert_eq!(b.e0, a.e0 * s);
    assert_eq!(b.e1, a.e1 * s);
}

#[test]
fn test_float_scalar_type() {
    let a = Vector2::<f64> { e0: 1.5, e1: -2.25 };
    let b = Vector2::<f64> { e0: 0.5, e1: 2.25 };
    let c = a + b;
    let d = a * 2.0;

    assert_eq!(c.e0, 2.0);
    assert_eq!(c.e1, 0.0);
    assert_eq!(d.e0, 3.0);
    assert_eq!(d.e1, -4.5);
    assert_eq!(-(-a).get(0), 1.5);
    assert_eq!(a * b, 1.5 * 0.5 + -2.25 * 2.25);
}

#[test]
fn test_unsigned_scalar_type() {
    let a = Vector2::<u8> { e0: 200, e1: 55 };
    let b = Vector2::<u8> { e0: 55, e1: 200 };
    let c = a + b;

    assert_eq!(c.e0, 255);
    assert_eq!(c.e1, 255);
    assert_eq!(c.get(0), 255);
}
