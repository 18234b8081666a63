use guitar_gamepad::sampler::read_level;
use guitar_gamepad::{refresh, GamepadReport, InputSnapshot};

fn idle(whammy: u16) -> InputSnapshot {
    InputSnapshot { frets: [Some(false); 6], buttons: [Some(false); 5], whammy }
}

#[test]
fn idle_inputs_give_idle_report() {
    let mut r = GamepadReport::default();
    refresh(&mut r, &idle(1234));
    assert_eq!(r, GamepadReport { whammy: 1234, frets: 0b0000_0000, buttons: 0b0000_0000 });
}

#[test]
fn fret_one_and_three_with_strum_up() {
    let mut inputs = idle(0);
    inputs.frets[0] = Some(true);
    inputs.frets[2] = Some(true);
    inputs.buttons[0] = Some(true);
    let mut r = GamepadReport::default();
    refresh(&mut r, &inputs);
    assert_eq!(r.frets, 0b0000_0101);
    assert_eq!(r.buttons, 0b0000_0001);
}

#[test]
fn everything_pressed() {
    let inputs = InputSnapshot { frets: [Some(true); 6], buttons: [Some(true); 5], whammy: 40000 };
    let mut r = GamepadReport::default();
    refresh(&mut r, &inputs);
    assert_eq!(r.frets, 0b0011_1111);
    assert_eq!(r.buttons, 0b0001_1111);
    assert_eq!(r.whammy, 40000);
    assert_eq!(r.to_bytes(), [0x40, 0x9C, 0b0011_1111, 0b0001_1111]);
}

#[test]
fn refresh_twice_gives_same_report() {
    let mut inputs = idle(777);
    inputs.frets[1] = Some(true);
    inputs.frets[5] = None;
    inputs.buttons[3] = Some(true);
    let mut r = GamepadReport { whammy: 5, frets: 0b0001_0001, buttons: 0b0000_0110 };
    refresh(&mut r, &inputs);
    let first = r;
    refresh(&mut r, &inputs);
    assert_eq!(r, first);
    assert_eq!(first, GamepadReport { whammy: 777, frets: 0b0000_0010, buttons: 0b0000_1000 });
}

#[test]
fn failed_read_counts_as_released() {
    assert!(!read_level(None));
    assert!(!read_level(Some(false)));
    assert!(read_level(Some(true)));
    for k in 0..6 {
        let mut failed = InputSnapshot { frets: [Some(true); 6], buttons: [Some(true); 5], whammy: 9 };
        failed.frets[k] = None;
        let mut low = failed;
        low.frets[k] = Some(false);
        let mut a = GamepadReport::default();
        let mut b = GamepadReport::default();
        refresh(&mut a, &failed);
        refresh(&mut b, &low);
        assert_eq!(a, b);
        assert_eq!(a.frets, 0b0011_1111 & !(1u8 << k));
        assert_eq!(a.buttons, 0b0001_1111);
        assert_eq!(a.whammy, 9);
    }
    for k in 0..5 {
        let mut failed = InputSnapshot { frets: [Some(true); 6], buttons: [Some(true); 5], whammy: 9 };
        failed.buttons[k] = None;
        let mut r = GamepadReport::default();
        refresh(&mut r, &failed);
        assert_eq!(r.buttons, 0b0001_1111 & !(1u8 << k));
        assert_eq!(r.frets, 0b0011_1111);
    }
}

#[test]
fn release_clears_previously_pressed_bits() {
    let mut r = GamepadReport { whammy: 100, frets: 0b0011_1111, buttons: 0b0001_1111 };
    refresh(&mut r, &idle(200));
    assert_eq!(r, GamepadReport { whammy: 200, frets: 0, buttons: 0 });
}
