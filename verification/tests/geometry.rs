use term_list::geometry::{Dir, Side, Sides};
use term_list::length::Length;
use typst_utils::Get;

#[test]
fn directions_start_at_their_side() {
    assert_eq!(Dir::Ltr.start(), Side::Left);
    assert_eq!(Dir::Rtl.start(), Side::Right);
    assert_eq!(Dir::Ttb.start(), Side::Top);
    assert_eq!(Dir::Btt.start(), Side::Bottom);
}

#[test]
fn default_sides_are_zero() {
    let zero = Length::zero();
    assert_eq!(Sides::default(), Sides { left: zero, top: zero, right: zero, bottom: zero });
}

#[test]
fn get_ref_reads_each_side() {
    let sides = Sides {
        left: Length::points(1),
        top: Length::points(2),
        right: Length::points(3),
        bottom: Length::points(4),
    };
    assert_eq!(*sides.get_ref(Side::Left), Length::points(1));
    assert_eq!(*sides.get_ref(Side::Top), Length::points(2));
    assert_eq!(*sides.get_ref(Side::Right), Length::points(3));
    assert_eq!(*sides.get_ref(Side::Bottom), Length::points(4));
}

#[test]
fn get_mut_writes_one_side() {
    let mut sides = Sides::default();
    *sides.get_mut(Side::Top) = Length::ems(500);
    let zero = Length::zero();
    assert_eq!(sides, Sides { left: zero, top: Length::ems(500), right: zero, bottom: zero });
}

#[test]
fn with_replaces_one_side() {
    let zero = Length::zero();
    let pad = Length { abs: 5000, em: 2000 };
    assert_eq!(
        Sides::default().with(Side::Left, pad),
        Sides { left: pad, top: zero, right: zero, bottom: zero }
    );
    assert_eq!(
        Sides::default().with(Side::Right, pad),
        Sides { left: zero, top: zero, right: pad, bottom: zero }
    );
    assert_eq!(
        Sides::default().with(Side::Bottom, pad).with(Side::Bottom, zero),
        Sides::default()
    );
}

#[test]
fn get_copies_one_side() {
    let sides = Sides::default().with(Side::Right, Length::ems(2000));
    assert_eq!(sides.get(Side::Right), Length::ems(2000));
    assert_eq!(sides.get(Side::Left), Length::zero());
}

#[test]
fn set_replaces_one_side_in_place() {
    let mut sides = Sides::default();
    sides.set(Side::Left, Length::points(5000));
    sides.set(Side::Left, Length::points(6000));
    assert_eq!(sides, Sides::default().with(Side::Left, Length::points(6000)));
}
