use blackbox_rs::buttons::{self, Button, Buttons};
use blackbox_rs::knobs::{self, Knob, Reading};
use blackbox_rs::leds::{self, Leds};

#[test]
fn button_indices_follow_pin_order() {
    for (i, b) in Button::ALL.iter().enumerate() {
        assert_eq!(b.index(), i);
    }
    assert_eq!(Button::Pads.index(), 0);
    assert_eq!(Button::Info.index(), 12);
    assert_eq!(Button::ALL.len(), buttons::COUNT);
}

#[test]
fn button_labels() {
    let labels: Vec<&str> = Button::ALL.iter().map(|b| b.label()).collect();
    assert_eq!(
        labels,
        vec!["PADS", "KEYS", "SEQS", "SONG", "FX", "MIX", "PSET", "TOOLS", "REC", "STOP", "PLAY", "BACK", "INFO"]
    );
    for i in 0..labels.len() {
        for j in 0..labels.len() {
            if i != j {
                assert_ne!(labels[i], labels[j]);
            }
        }
    }
}

#[test]
fn buttons_are_active_low() {
    let mut high = [true; buttons::COUNT];
    high[Button::Rec.index()] = false;
    high[Button::Info.index()] = false;
    let bank = Buttons::new(high);
    assert!(bank.is_pressed(Button::Rec));
    assert!(bank.is_pressed(Button::Info));
    assert!(!bank.is_pressed(Button::Pads));
    let pressed = bank.pressed();
    for b in Button::ALL {
        assert_eq!(pressed[b.index()], b == Button::Rec || b == Button::Info);
    }
}

#[test]
fn knob_indices_labels_and_wipers() {
    let labels: Vec<&str> = Knob::ALL.iter().map(|k| k.label()).collect();
    assert_eq!(labels, vec!["TL", "TR", "BL", "BR"]);
    for (i, k) in Knob::ALL.iter().enumerate() {
        assert_eq!(k.index(), i);
        assert_eq!(k.wipers(), (2 * i, 2 * i + 1));
    }
    assert_eq!(Knob::Br.wipers(), (6, 7));
    assert_eq!(knobs::WIPER_COUNT, 2 * knobs::COUNT);
    let r = Reading { a: 32768, b: 0 };
    assert_eq!(r.a, 32768);
    assert_eq!(r.b, 0);
}

fn lit(l: &Leds) -> Vec<bool> {
    (0..leds::COUNT).map(|i| l.is_on(i)).collect()
}

#[test]
fn leds_start_dark_and_set_one() {
    let mut l = Leds::new();
    assert_eq!(l.count(), 11);
    assert!(lit(&l).iter().all(|&on| !on));
    l.set(3, true);
    l.set(7, true);
    l.set(3, false);
    let expected: Vec<bool> = (0..leds::COUNT).map(|i| i == 7).collect();
    assert_eq!(lit(&l), expected);
}

#[test]
fn leds_only_lights_exactly_one() {
    let mut l = Leds::new();
    for i in 0..leds::COUNT {
        l.set(i, true);
    }
    l.only(4);
    let expected: Vec<bool> = (0..leds::COUNT).map(|i| i == 4).collect();
    assert_eq!(lit(&l), expected);
    l.only(leds::COUNT + 2);
    assert!(lit(&l).iter().all(|&on| !on));
}
