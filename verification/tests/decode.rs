use korg_nano_kontrol_2::{
    ButtonRow, Event, MarkerButton, State, Strip, TrackButton, Transport, MIDI_INPUT_PORT_PREFIX,
};

const STRIPS: [Strip; 8] = [
    Strip::A,
    Strip::B,
    Strip::C,
    Strip::D,
    Strip::E,
    Strip::F,
    Strip::G,
    Strip::H,
];

#[test]
fn rotary_sliders_decode_per_strip() {
    for i in 0..8u8 {
        for v in [0u8, 1, 64, 127] {
            assert_eq!(
                Event::from_midi(&[176, 16 + i, v]),
                Some(Event::RotarySlider(STRIPS[i as usize], v))
            );
        }
    }
}

#[test]
fn vertical_sliders_decode_per_strip() {
    for i in 0..8u8 {
        for v in [0u8, 1, 64, 127] {
            assert_eq!(
                Event::from_midi(&[176, i, v]),
                Some(Event::VerticalSlider(STRIPS[i as usize], v))
            );
        }
    }
}

#[test]
fn cycle_button_state_follows_value() {
    assert_eq!(
        Event::from_midi(&[176, 99, 0]),
        Some(Event::CycleButton(State::Off))
    );
    for v in [1u8, 2, 64, 127] {
        assert_eq!(
            Event::from_midi(&[176, 99, v]),
            Some(Event::CycleButton(State::On))
        );
    }
}

#[test]
fn rewind_and_fastforward_share_a_controller() {
    // The value byte does double duty on controller 44: it selects the
    // button and supplies its state.
    assert_eq!(
        Event::from_midi(&[176, 44, 0]),
        Some(Event::TransportButton(Transport::Rewind, State::Off))
    );
    assert_eq!(
        Event::from_midi(&[176, 44, 1]),
        Some(Event::TransportButton(Transport::Fastforward, State::On))
    );
    assert_eq!(
        Event::from_midi(&[176, 44, 127]),
        Some(Event::TransportButton(Transport::Fastforward, State::On))
    );
}

#[test]
fn other_transport_buttons_decode() {
    let buttons = [
        (45u8, Transport::Stop),
        (46, Transport::Play),
        (47, Transport::Record),
    ];
    for (controller, button) in buttons {
        assert_eq!(
            Event::from_midi(&[176, controller, 0]),
            Some(Event::TransportButton(button, State::Off))
        );
        assert_eq!(
            Event::from_midi(&[176, controller, 127]),
            Some(Event::TransportButton(button, State::On))
        );
    }
}

#[test]
fn track_buttons_decode() {
    assert_eq!(
        Event::from_midi(&[176, 58, 127]),
        Some(Event::TrackButton(TrackButton::Left, State::On))
    );
    assert_eq!(
        Event::from_midi(&[176, 58, 0]),
        Some(Event::TrackButton(TrackButton::Left, State::Off))
    );
    assert_eq!(
        Event::from_midi(&[176, 59, 1]),
        Some(Event::TrackButton(TrackButton::Right, State::On))
    );
    assert_eq!(
        Event::from_midi(&[176, 59, 0]),
        Some(Event::TrackButton(TrackButton::Right, State::Off))
    );
}

#[test]
fn marker_buttons_decode() {
    let buttons = [
        (60u8, MarkerButton::Mark),
        (61, MarkerButton::Left),
        (62, MarkerButton::Right),
    ];
    for (controller, button) in buttons {
        assert_eq!(
            Event::from_midi(&[176, controller, 0]),
            Some(Event::MarkerButton(button, State::Off))
        );
        assert_eq!(
            Event::from_midi(&[176, controller, 64]),
            Some(Event::MarkerButton(button, State::On))
        );
    }
}

#[test]
fn button_rows_decode_per_strip() {
    let rows = [
        (32u8, ButtonRow::Solo),
        (48, ButtonRow::Mute),
        (64, ButtonRow::Record),
    ];
    for (base, row) in rows {
        for i in 0..8u8 {
            assert_eq!(
                Event::from_midi(&[176, base + i, 0]),
                Some(Event::Button(row, STRIPS[i as usize], State::Off))
            );
            assert_eq!(
                Event::from_midi(&[176, base + i, 127]),
                Some(Event::Button(row, STRIPS[i as usize], State::On))
            );
        }
    }
}

#[test]
fn wrong_length_messages_decode_to_none() {
    assert_eq!(Event::from_midi(&[]), None);
    assert_eq!(Event::from_midi(&[176]), None);
    assert_eq!(Event::from_midi(&[176, 16]), None);
    assert_eq!(Event::from_midi(&[176, 16, 64, 0]), None);
}

#[test]
fn wrong_status_byte_decodes_to_none() {
    assert_eq!(Event::from_midi(&[177, 16, 64]), None);
    assert_eq!(Event::from_midi(&[0, 16, 64]), None);
    assert_eq!(Event::from_midi(&[255, 16, 64]), None);
}

#[test]
fn unmapped_controllers_decode_to_none() {
    // Every controller number bordering a mapped range, and the unmapped
    // stretches between them.
    for controller in [8u8, 15, 24, 31, 40, 43, 56, 57, 63, 72, 98, 100, 127, 255] {
        assert_eq!(Event::from_midi(&[176, controller, 64]), None);
    }
}

#[test]
fn decoding_is_deterministic() {
    let messages: [&[u8]; 5] = [&[176, 16, 64], &[176, 44, 0], &[176, 99, 1], &[177, 0, 0], &[]];
    for msg in messages {
        let first = Event::from_midi(msg);
        for _ in 0..3 {
            assert_eq!(Event::from_midi(msg), first);
        }
    }
}

#[test]
fn port_prefix_names_the_device() {
    assert_eq!(MIDI_INPUT_PORT_PREFIX, "nanoKONTROL2 SLIDER/KNOB");
}
