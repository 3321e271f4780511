use optics_ring_generator::form::{
    dimension_char_allowed, list_move_down, list_move_up, ring_type_at, InputField,
};
use optics_ring_generator::params::RingType;

#[test]
fn fields_cycle_in_tab_order() {
    assert_eq!(InputField::RingType.next_field(), InputField::OuterDiameter);
    assert_eq!(InputField::OuterDiameter.next_field(), InputField::InnerDiameter);
    assert_eq!(InputField::InnerDiameter.next_field(), InputField::OutputDir);
    assert_eq!(InputField::OutputDir.next_field(), InputField::RingType);

    // previous undoes next, all the way around
    let mut f = InputField::RingType;
    for _ in 0..4 {
        let n = f.next_field();
        assert_eq!(n.previous_field(), f);
        f = n;
    }
    assert_eq!(f, InputField::RingType);
}

#[test]
fn dimension_fields_accept_digits_and_point() {
    assert!(dimension_char_allowed('0'));
    assert!(dimension_char_allowed('9'));
    assert!(dimension_char_allowed('.'));
    assert!(!dimension_char_allowed('a'));
    assert!(!dimension_char_allowed('-'));
    assert!(!dimension_char_allowed(' '));
}

#[test]
fn list_selection_wraps() {
    assert_eq!(list_move_up(Some(0), 5), 4);
    assert_eq!(list_move_up(Some(3), 5), 2);
    assert_eq!(list_move_up(None, 5), 0);
    assert_eq!(list_move_up(Some(0), 0), 0);

    assert_eq!(list_move_down(Some(4), 5), 0);
    assert_eq!(list_move_down(Some(1), 5), 2);
    assert_eq!(list_move_down(None, 5), 0);
    assert_eq!(list_move_down(Some(0), 0), 0);
}

#[test]
fn ring_type_selection_positions() {
    assert_eq!(ring_type_at(0), RingType::Convex);
    assert_eq!(ring_type_at(1), RingType::Concave);
    assert_eq!(ring_type_at(2), RingType::ThreePoint);
    // out of range falls back to the first entry
    assert_eq!(ring_type_at(7), RingType::Convex);
}
