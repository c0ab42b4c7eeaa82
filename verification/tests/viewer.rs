use image_browser::viewer::ImageSet;

fn set_of(names: &[&str]) -> ImageSet {
    let paths: Vec<String> = names.iter().map(|n| String::from(*n)).collect();
    ImageSet::new(paths)
}

#[test]
fn forward_step_at_last_image_is_rejected() {
    let mut s = set_of(&["a", "b", "c", "d", "e"]);
    for _ in 0..4 {
        s.step_forward(1);
    }
    assert_eq!(s.position(), 4);
    s.step_forward(1);
    assert_eq!(s.position(), 4);
}

#[test]
fn forward_step_before_last_image_advances() {
    let mut s = set_of(&["a", "b", "c", "d", "e"]);
    for _ in 0..3 {
        s.step_forward(1);
    }
    assert_eq!(s.position(), 3);
    s.step_forward(1);
    assert_eq!(s.position(), 4);
}

#[test]
fn forward_overshoot_is_all_or_nothing() {
    let mut s = set_of(&["a", "b", "c", "d", "e"]);
    s.step_forward(3);
    assert_eq!(s.position(), 3);
    s.step_forward(3);
    assert_eq!(s.position(), 3);
    s.step_forward(1);
    assert_eq!(s.position(), 4);
}

#[test]
fn forward_magnitude_beyond_length_is_safe() {
    let mut s = set_of(&["a", "b", "c", "d", "e"]);
    s.step_forward(100);
    assert_eq!(s.position(), 0);
}

#[test]
fn backward_short_of_magnitude_stays_put() {
    let mut s = set_of(&["a", "b", "c", "d", "e"]);
    s.step_forward(3);
    assert_eq!(s.position(), 3);
    s.step_backward(10);
    assert_eq!(s.position(), 3);
}

#[test]
fn backward_at_first_image_stays_put() {
    let mut s = set_of(&["a", "b"]);
    s.step_backward(1);
    assert_eq!(s.position(), 0);
}

#[test]
fn backward_clamps_at_zero_asymmetrically() {
    let mut s = set_of(&["a", "b", "c", "d", "e"]);
    s.step_forward(4);
    s.step_backward(1);
    assert_eq!(s.position(), 3);
    s.step_backward(3);
    assert_eq!(s.position(), 0);
}

#[test]
fn singleton_set_never_moves() {
    let mut s = set_of(&["a"]);
    s.step_forward(1);
    assert_eq!(s.position(), 0);
    s.step_backward(1);
    assert_eq!(s.position(), 0);
}

#[test]
fn removing_last_position_pulls_cursor_back() {
    let mut s = set_of(&["a", "b", "c"]);
    s.step_forward(2);
    assert_eq!(s.position(), 2);
    let removed = s.remove_current();
    assert_eq!(removed, Some(String::from("c")));
    assert_eq!(s.len(), 2);
    assert_eq!(s.position(), 1);
    assert_eq!(s.get(0), "a");
    assert_eq!(s.get(1), "b");
    assert_eq!(s.current(), Some(&String::from("b")));
}

#[test]
fn removing_middle_position_keeps_cursor() {
    let mut s = set_of(&["a", "b", "c"]);
    s.step_forward(1);
    let removed = s.remove_current();
    assert_eq!(removed, Some(String::from("b")));
    assert_eq!(s.len(), 2);
    assert_eq!(s.position(), 1);
    assert_eq!(s.current(), Some(&String::from("c")));
}

#[test]
fn removing_the_only_image_empties_the_set() {
    let mut s = set_of(&["a"]);
    let removed = s.remove_current();
    assert_eq!(removed, Some(String::from("a")));
    assert!(s.is_empty());
    s.step_forward(1);
    s.step_backward(1);
    assert_eq!(s.remove_current(), None);
    assert_eq!(s.current(), None);
    assert_eq!(s.position(), 0);
}

#[test]
fn empty_set_ignores_every_operation() {
    let mut s = ImageSet::new(Vec::new());
    assert!(s.is_empty());
    assert_eq!(s.len(), 0);
    assert_eq!(s.current(), None);
    s.step_forward(1);
    s.step_forward(100);
    s.step_backward(1);
    s.step_backward(100);
    assert_eq!(s.position(), 0);
    assert_eq!(s.remove_current(), None);
    assert_eq!(s.current(), None);
}
