use quaternions::q;
use quaternions::qi;
use quaternions::Quaternion;
use quaternions::Rat;

#[test]
fn test_arithmetic() {
    assert!(qi(1, 2, 3, 4).add(&qi(5, 6, 7, 8)).equals(&qi(6, 8, 10, 12)));
    assert!(qi(1, 2, 3, 4).sub(&qi(5, 6, 7, 8)).equals(&qi(-4, -4, -4, -4)));
    assert!(qi(1, 2, 3, 4).scale(Rat::new(3, 2)).equals(&q(
        Rat::new(3, 2),
        Rat::new(3, 1),
        Rat::new(9, 2),
        Rat::new(6, 1),
    )));

    // div depends on order

    assert!(qi(1, 2, 3, 4).mul(&qi(5, 6, 7, 8)).equals(&qi(-60, 12, 30, 24)));
    assert!(qi(-60, 12, 30, 24).div(&qi(5, 6, 7, 8)).equals(&qi(1, 2, 3, 4)));

    assert!(qi(5, 6, 7, 8).mul(&qi(1, 2, 3, 4)).equals(&qi(-60, 20, 14, 32)));
    assert!(qi(-60, 20, 14, 32).div(&qi(1, 2, 3, 4)).equals(&qi(5, 6, 7, 8)));

    assert!(qi(1, 2, 3, 4).conjugate().equals(&qi(1, -2, -3, -4)));
    assert!(qi(1, 2, 3, 4).square_length().equals(&Rat::new(30, 1)));

    assert!(qi(1, 2, 3, 4).inverse().mul(&qi(1, 2, 3, 4)).equals(&qi(1, 0, 0, 0)));
    assert!(Quaternion::id().equals(&qi(1, 0, 0, 0)));

    assert!(Quaternion::default().equals(&qi(0, 0, 0, 0)));

    assert!(qi(1, 2, 3, 4).dot(&qi(5, 6, 7, 8)).equals(&Rat::new(70, 1)));

    let a = qi(1, 2, 3, 4);
    assert!(a.neg().equals(&qi(-1, -2, -3, -4)));
}

#[test]
fn test_arithmetic_mut() {
    let mut a = qi(1, 2, 3, 4);
    a.add_assign(&qi(5, 6, 7, 8));
    assert!(a.equals(&qi(6, 8, 10, 12)));

    let mut b = qi(1, 2, 3, 4);
    b.mul_assign(&qi(5, 6, 7, 8));
    assert!(b.equals(&qi(-60, 12, 30, 24)));

    let mut c = qi(1, 2, 3, 4);
    let c2 = c;
    c.inverse_mut();
    assert!(c.mul(&c2).equals(&qi(1, 0, 0, 0)));
}

#[test]
fn test_add_exact_fields() {
    let r = qi(1, 2, 3, 4).add(&qi(5, 6, 7, 8));
    assert_eq!(r.w.n, 6);
    assert_eq!(r.w.d, 1);
    assert_eq!(r.x.n, 8);
    assert_eq!(r.y.n, 10);
    assert_eq!(r.z.n, 12);
}

#[test]
fn test_mul_not_commutative() {
    let ab = qi(1, 2, 3, 4).mul(&qi(5, 6, 7, 8));
    let ba = qi(5, 6, 7, 8).mul(&qi(1, 2, 3, 4));
    assert!(!ab.equals(&ba));
}

#[test]
fn test_add_commutative() {
    let ab = qi(1, 2, 3, 4).add(&qi(5, 6, 7, 8));
    let ba = qi(5, 6, 7, 8).add(&qi(1, 2, 3, 4));
    assert!(ab.equals(&ba));
}

#[test]
fn test_identity_neutral() {
    let a = q(Rat::new(1, 2), Rat::new(-3, 4), Rat::new(5, 6), Rat::new(-7, 8));
    assert!(Quaternion::id().mul(&a).equals(&a));
    assert!(a.mul(&Quaternion::id()).equals(&a));
}

#[test]
fn test_inverse_fractions() {
    let a = qi(0, 3, 0, 0);
    let inv = a.inverse();
    assert!(inv.equals(&q(
        Rat::new(0, 1),
        Rat::new(-1, 3),
        Rat::new(0, 1),
        Rat::new(0, 1),
    )));
    assert!(inv.mul(&a).equals(&Quaternion::id()));
}

#[test]
fn test_rational_equality_unreduced() {
    let half = q(Rat::new(1, 2), Rat::new(0, 1), Rat::new(0, 1), Rat::new(0, 1));
    let two_quarters = q(Rat::new(2, 4), Rat::new(0, 1), Rat::new(0, 1), Rat::new(0, 1));
    assert!(half.equals(&two_quarters));
    let third = q(Rat::new(1, 3), Rat::new(0, 1), Rat::new(0, 1), Rat::new(0, 1));
    assert!(!half.equals(&third));
    assert!(half.add(&half).equals(&qi(1, 0, 0, 0)));
}

#[test]
fn test_mut_variants_match_immutable() {
    let a = qi(9, -8, 7, -6);
    let b = qi(-1, 2, -3, 4);
    let t = Rat::new(-5, 3);

    let mut m = a;
    m.sub_assign(&b);
    assert!(m.equals(&a.sub(&b)));

    let mut m = a;
    m.scale_mut(t);
    assert!(m.equals(&a.scale(t)));

    let mut m = a;
    m.conjugate_mut();
    assert!(m.equals(&a.conjugate()));

    let mut m = a;
    m.inverse_mut();
    assert!(m.equals(&a.inverse()));
}

#[test]
fn test_division_round_trip() {
    let a = qi(2, -3, 5, -7);
    let b = qi(1, 1, -1, 2);
    assert!(a.mul(&b).div(&b).equals(&a));
}

#[test]
fn test_rat_constructors() {
    let r = Rat::new(-21, 14);
    assert_eq!(r.n, -21);
    assert_eq!(r.d, 14);
    assert!(r.equals(&Rat::new(-3, 2)));
    let i = Rat::from_int(5);
    assert_eq!(i.n, 5);
    assert_eq!(i.d, 1);
    let qq = Quaternion::new(r, i, Rat::new(0, 1), Rat::new(1, 1));
    assert_eq!(qq.w.n, -21);
    assert_eq!(qq.y.n, 0);
}
