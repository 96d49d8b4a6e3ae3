use pongxelflut::intent::PlayerDir;

#[test]
fn press_up_transitions() {
    assert_eq!(PlayerDir::Neutral.press_up(), PlayerDir::Up);
    assert_eq!(PlayerDir::Up.press_up(), PlayerDir::Up);
    assert_eq!(PlayerDir::Down.press_up(), PlayerDir::Both);
    assert_eq!(PlayerDir::Both.press_up(), PlayerDir::Both);
}

#[test]
fn press_down_transitions() {
    assert_eq!(PlayerDir::Neutral.press_down(), PlayerDir::Down);
    assert_eq!(PlayerDir::Down.press_down(), PlayerDir::Down);
    assert_eq!(PlayerDir::Up.press_down(), PlayerDir::Both);
    assert_eq!(PlayerDir::Both.press_down(), PlayerDir::Both);
}

#[test]
fn release_up_transitions() {
    assert_eq!(PlayerDir::Neutral.release_up(), PlayerDir::Neutral);
    assert_eq!(PlayerDir::Up.release_up(), PlayerDir::Neutral);
    assert_eq!(PlayerDir::Down.release_up(), PlayerDir::Down);
    assert_eq!(PlayerDir::Both.release_up(), PlayerDir::Down);
}

#[test]
fn release_down_transitions() {
    assert_eq!(PlayerDir::Neutral.release_down(), PlayerDir::Neutral);
    assert_eq!(PlayerDir::Down.release_down(), PlayerDir::Neutral);
    assert_eq!(PlayerDir::Up.release_down(), PlayerDir::Up);
    assert_eq!(PlayerDir::Both.release_down(), PlayerDir::Up);
}

#[test]
fn both_keys_then_release_falls_back() {
    // Holding both keys and releasing one resumes the other direction.
    let d = PlayerDir::Neutral.press_up().press_down();
    assert_eq!(d, PlayerDir::Both);
    assert_eq!(d.release_up(), PlayerDir::Down);
}

#[test]
fn intent_depends_only_on_held_keys() {
    // Two press orders that leave the same key held agree on the intent.
    let a = PlayerDir::Neutral.press_up().press_down().release_up();
    assert_eq!(a, PlayerDir::Down);
    let b = PlayerDir::Neutral.press_down().press_up().release_down();
    assert_eq!(b, PlayerDir::Up);
}
