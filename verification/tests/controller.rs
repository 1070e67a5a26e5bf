use grounes::controller::{ButtonFlags, Controller};

#[test]
fn latched_buttons_are_reported_a_first_right_last() {
    let mut controller = Controller::default();
    let mut buttons = ButtonFlags::empty();
    buttons.insert(ButtonFlags::A);
    buttons.insert(ButtonFlags::Start);
    buttons.insert(ButtonFlags::Right);
    controller.update_button_state(buttons);
    controller.update_latch_value();
    let reads: Vec<u8> = (0..8).map(|_| controller.get_latched_value_and_shift()).collect();
    assert_eq!(reads, vec![1, 0, 0, 1, 0, 0, 0, 1]);
}

#[test]
fn buttons_are_latched_right_away_while_the_latch_is_held() {
    let mut controller = Controller::default();
    controller.update_latch = true;
    controller.update_button_state(ButtonFlags::from_bits_truncate(ButtonFlags::B));
    assert_eq!(controller.latched_value, ButtonFlags::B);
    assert_eq!(controller.get_latched_value_and_shift(), 0);
    assert_eq!(controller.get_latched_value_and_shift(), 1);
}

#[test]
fn buttons_wait_for_the_latch_when_it_is_released() {
    let mut controller = Controller::default();
    controller.update_button_state(ButtonFlags::from_bits_truncate(ButtonFlags::Up));
    assert_eq!(controller.latched_value, 0);
    controller.update_latch_value();
    assert_eq!(controller.latched_value, ButtonFlags::Up);
    assert!(controller.button_state.contains(ButtonFlags::Up));
}

#[test]
fn reads_after_the_eighth_report_one() {
    let mut controller = Controller::default();
    controller.update_latch_value();
    for _ in 0..8 {
        assert_eq!(controller.get_latched_value_and_shift(), 0);
    }
    assert_eq!(controller.get_latched_value_and_shift(), 1);
    assert_eq!(controller.get_latched_value_and_shift(), 1);
}
