//! Decoding of the MIDI Control Change messages emitted by the Korg
//! nanoKONTROL 2 into strongly-typed control events.
//!
//! The whole library is one pure, stateless translation: a 3-byte MIDI
//! message either decodes to the [`Event`] it represents or to `None` when
//! the message lies outside this controller's vocabulary. The decode table
//! is written down once as the spec function [`spec_decode`]; the executable
//! decoder [`Event::from_midi`] is proved to agree with it on every input.

use vstd::prelude::*;

verus! {

/// The name of the ports on which the nanoKONTROL 2 emits MIDI input values.
pub const MIDI_INPUT_PORT_PREFIX: &'static str = "nanoKONTROL2 SLIDER/KNOB";

/// The top two track buttons.
#[derive(Copy, Clone, Debug, Hash, PartialEq, Eq, Structural)]
pub enum TrackButton {
    Left,
    Right,
}

/// The three marker buttons. `Mark` is the button labelled "Set", which
/// places a marker.
#[derive(Copy, Clone, Debug, Hash, PartialEq, Eq, Structural)]
pub enum MarkerButton {
    Mark,
    Left,
    Right,
}

/// The five transport buttons.
#[derive(Copy, Clone, Debug, Hash, PartialEq, Eq, Structural)]
pub enum Transport {
    Rewind,
    Fastforward,
    Stop,
    Play,
    Record,
}

/// The 3 distinct rows on which `Button`s are placed.
#[derive(Copy, Clone, Debug, Hash, PartialEq, Eq, Structural)]
pub enum ButtonRow {
    Solo,
    Mute,
    Record,
}

/// Whether a button is held down or has been let go.
#[derive(Copy, Clone, Debug, Hash, PartialEq, Eq, Structural)]
pub enum State {
    /// The button was pressed.
    On,
    /// The button was released.
    Off,
}

/// One of the 8 physical control lanes, in order from left to right.
#[derive(Copy, Clone, Debug, Hash, PartialEq, Eq, PartialOrd, Ord, Structural)]
pub enum Strip {
    A,
    B,
    C,
    D,
    E,
    F,
    G,
    H,
}

/// Controller events.
#[derive(Copy, Clone, Debug, Hash, PartialEq, Eq, Structural)]
pub enum Event {
    /// The value to which the rotary slider was set.
    ///
    /// Values range from `0` to `127` (inclusive).
    RotarySlider(Strip, u8),

    /// The value to which the vertical slider was set.
    ///
    /// Values range from `0` to `127` (inclusive).
    VerticalSlider(Strip, u8),

    /// A button was pressed or released on the given row.
    Button(ButtonRow, Strip, State),

    /// The two buttons on the upper left hand side of the controller.
    TrackButton(TrackButton, State),

    /// The single cycle button on the 2nd row and left hand side of the
    /// controller.
    CycleButton(State),

    /// The three marker buttons on the 2nd row and left hand side of the
    /// controller.
    MarkerButton(MarkerButton, State),

    /// Media playback-style control buttons.
    TransportButton(Transport, State),
}

/// The strip at the given lane index: `0` is `A`, `1` is `B`, and so on up
/// to `7` for `H`.
pub open spec fn spec_strip(i: u8) -> Strip
    recommends
        i < 8,
{
    if i == 0 {
        Strip::A
    } else if i == 1 {
        Strip::B
    } else if i == 2 {
        Strip::C
    } else if i == 3 {
        Strip::D
    } else if i == 4 {
        Strip::E
    } else if i == 5 {
        Strip::F
    } else if i == 6 {
        Strip::G
    } else {
        Strip::H
    }
}

/// The strip for a lane index, if there is one: indices `0..=7` map
/// bijectively onto the strips, every other index maps to nothing.
pub open spec fn spec_strip_from_u8(n: u8) -> Option<Strip> {
    if n < 8 {
        Some(spec_strip(n))
    } else {
        None
    }
}

/// The state a value byte denotes: `0` means released, anything else
/// means pressed.
pub open spec fn spec_state(value: u8) -> State {
    if value == 0 {
        State::Off
    } else {
        State::On
    }
}

/// The first controller number of a button row: the solo row sits on
/// controllers 32–39, the mute row on 48–55 and the record row on 64–71.
pub open spec fn spec_row_base(row: ButtonRow) -> u8 {
    match row {
        ButtonRow::Solo => 32,
        ButtonRow::Mute => 48,
        ButtonRow::Record => 64,
    }
}

/// The decode table for a Control Change triple `(status, controller,
/// value)`. Only status byte 176 (Control Change on channel 0) is
/// recognized; within it, each controller range below names one control on
/// the device, and every controller number outside them decodes to nothing.
///
/// Controller 44 is irregular by design: the value byte both picks the
/// button (zero is rewind, nonzero is fast-forward) and doubles as its
/// state, exactly as the hardware emits it.
pub open spec fn spec_decode_cc(status: u8, controller: u8, value: u8) -> Option<Event> {
    if status != 176 {
        None
    } else if 16 <= controller && controller <= 23 {
        // Rotary sliders.
        Some(Event::RotarySlider(spec_strip((controller - 16) as u8), value))
    } else if controller <= 7 {
        // Vertical sliders.
        Some(Event::VerticalSlider(spec_strip(controller), value))
    } else if controller == 58 {
        Some(Event::TrackButton(TrackButton::Left, spec_state(value)))
    } else if controller == 59 {
        Some(Event::TrackButton(TrackButton::Right, spec_state(value)))
    } else if controller == 99 {
        Some(Event::CycleButton(spec_state(value)))
    } else if controller == 60 {
        Some(Event::MarkerButton(MarkerButton::Mark, spec_state(value)))
    } else if controller == 61 {
        Some(Event::MarkerButton(MarkerButton::Left, spec_state(value)))
    } else if controller == 62 {
        Some(Event::MarkerButton(MarkerButton::Right, spec_state(value)))
    } else if controller == 44 {
        // The value byte does double duty here: it selects the button and
        // supplies its state.
        Some(
            Event::TransportButton(
                if value == 0 {
                    Transport::Rewind
                } else {
                    Transport::Fastforward
                },
                spec_state(value),
            ),
        )
    } else if controller == 45 {
        Some(Event::TransportButton(Transport::Stop, spec_state(value)))
    } else if controller == 46 {
        Some(Event::TransportButton(Transport::Play, spec_state(value)))
    } else if controller == 47 {
        Some(Event::TransportButton(Transport::Record, spec_state(value)))
    } else if 32 <= controller && controller <= 39 {
        Some(Event::Button(ButtonRow::Solo, spec_strip((controller - 32) as u8), spec_state(value)))
    } else if 48 <= controller && controller <= 55 {
        Some(Event::Button(ButtonRow::Mute, spec_strip((controller - 48) as u8), spec_state(value)))
    } else if 64 <= controller && controller <= 71 {
        Some(
            Event::Button(ButtonRow::Record, spec_strip((controller - 64) as u8), spec_state(value)),
        )
    } else {
        None
    }
}

/// What a raw MIDI message decodes to: a message is interpreted only when
/// it is exactly 3 bytes long, and then by the Control Change table of
/// [`spec_decode_cc`]. Every other message decodes to nothing.
pub open spec fn spec_decode(bytes: Seq<u8>) -> Option<Event> {
    if bytes.len() == 3 {
        spec_decode_cc(bytes[0], bytes[1], bytes[2])
    } else {
        None
    }
}

impl Strip {
    /// Create a `Strip` from the given value where 0 == A, 1 == B, etc.
    fn from_u8(n: u8) -> (r: Option<Self>)
        ensures
            r == spec_strip_from_u8(n),
    {
        match n {
            0 => Some(Strip::A),
            1 => Some(Strip::B),
            2 => Some(Strip::C),
            3 => Some(Strip::D),
            4 => Some(Strip::E),
            5 => Some(Strip::F),
            6 => Some(Strip::G),
            7 => Some(Strip::H),
            _ => None,
        }
    }
}

impl Event {
    /// Produce an `Event` from the given MIDI message itself.
    ///
    /// The result is exactly what the decode table [`spec_decode`] gives
    /// for the message's bytes: `Some` for each recognized Control Change
    /// triple, `None` for every message of a length other than 3, every
    /// other status byte and every unmapped controller number. The decoder
    /// never panics, whatever the input.
    pub fn from_midi(msg: &[u8]) -> (r: Option<Self>)
        ensures
            r == spec_decode(msg@),
    {
        if msg.len() != 3 {
            return None;
        }
        match (msg[0], msg[1], msg[2]) {
            // Rotary sliders.
            (176, n @ 16..=23, value) => match Strip::from_u8(n - 16) {
                Some(strip) => Some(Event::RotarySlider(strip, value)),
                None => None,
            },
            // Vertical sliders.
            (176, n @ 0..=7, value) => match Strip::from_u8(n) {
                Some(strip) => Some(Event::VerticalSlider(strip, value)),
                None => None,
            },
            // Track buttons.
            (176, n @ 58..=59, value) => {
                let button = if n == 58 {
                    TrackButton::Left
                } else {
                    TrackButton::Right
                };
                Some(Event::TrackButton(button, State::from_value(value)))
            },
            // Cycle button.
            (176, 99, value) => Some(Event::CycleButton(State::from_value(value))),
            // Marker buttons.
            (176, n @ 60..=62, value) => {
                let button = if n == 60 {
                    MarkerButton::Mark
                } else if n == 61 {
                    MarkerButton::Left
                } else {
                    MarkerButton::Right
                };
                Some(Event::MarkerButton(button, State::from_value(value)))
            },
            // Transport buttons. On controller 44 the value byte selects
            // the button as well as its state.
            (176, n @ 44..=47, value) => {
                let transport = if n == 44 {
                    if value == 0 {
                        Transport::Rewind
                    } else {
                        Transport::Fastforward
                    }
                } else if n == 45 {
                    Transport::Stop
                } else if n == 46 {
                    Transport::Play
                } else {
                    Transport::Record
                };
                Some(Event::TransportButton(transport, State::from_value(value)))
            },
            // Top solo row buttons.
            (176, n @ 32..=39, value) => match Strip::from_u8(n - 32) {
                Some(strip) => Some(Event::Button(ButtonRow::Solo, strip, State::from_value(value))),
                None => None,
            },
            // Middle mute row buttons.
            (176, n @ 48..=55, value) => match Strip::from_u8(n - 48) {
                Some(strip) => Some(Event::Button(ButtonRow::Mute, strip, State::from_value(value))),
                None => None,
            },
            // Bottom record row buttons.
            (176, n @ 64..=71, value) => match Strip::from_u8(n - 64) {
                Some(strip) => Some(
                    Event::Button(ButtonRow::Record, strip, State::from_value(value)),
                ),
                None => None,
            },
            _ => None,
        }
    }
}

impl State {
    /// The state a value byte denotes: `0` is `Off`, anything else `On`.
    pub fn from_value(value: u8) -> (r: Self)
        ensures
            r == spec_state(value),
    {
        if value == 0 {
            State::Off
        } else {
            State::On
        }
    }
}

/// Every rotary-slider message decodes to the rotary slider of its lane:
/// for each strip index `i` in 0–7 and each value `v` in 0–127, the triple
/// `(176, 16 + i, v)` decodes to `RotarySlider` of strip `i` with value `v`
/// passed through unchanged.
pub proof fn lemma_decode_rotary_slider(i: u8, v: u8)
    requires
        i < 8,
        v <= 127,
    ensures
        spec_decode(seq![176u8, (16 + i) as u8, v]) == Some(
            Event::RotarySlider(spec_strip(i), v),
        ),
{
}

/// Every vertical-slider message decodes to the vertical slider of its
/// lane: for each strip index `i` in 0–7 and each value `v` in 0–127, the
/// triple `(176, i, v)` decodes to `VerticalSlider` of strip `i` with value
/// `v` passed through unchanged.
pub proof fn lemma_decode_vertical_slider(i: u8, v: u8)
    requires
        i < 8,
        v <= 127,
    ensures
        spec_decode(seq![176u8, i, v]) == Some(Event::VerticalSlider(spec_strip(i), v)),
{
}

/// Every cycle-button message decodes to the cycle button, on exactly when
/// the value byte is nonzero: for each value `v` in 0–127, the triple
/// `(176, 99, v)` decodes to `CycleButton(On)` iff `v != 0` and to
/// `CycleButton(Off)` iff `v == 0`.
pub proof fn lemma_decode_cycle_button(v: u8)
    requires
        v <= 127,
    ensures
        spec_decode(seq![176u8, 99u8, v]) == Some(
            Event::CycleButton(
                if v == 0 {
                    State::Off
                } else {
                    State::On
                },
            ),
        ),
{
}

/// Every per-strip button message decodes to the button of its row and
/// lane: for each row (solo on controllers 32–39, mute on 48–55, record on
/// 64–71), each offset `i` in 0–7 and each value `v` in 0–127, the triple
/// `(176, base + i, v)` decodes to `Button` of that row and strip `i`,
/// `Off` when `v` is zero and `On` otherwise.
pub proof fn lemma_decode_button_rows(row: ButtonRow, i: u8, v: u8)
    requires
        i < 8,
        v <= 127,
    ensures
        spec_decode(seq![176u8, (spec_row_base(row) + i) as u8, v]) == Some(
            Event::Button(row, spec_strip(i), spec_state(v)),
        ),
{
}

/// A message of any length other than 3 decodes to nothing, whatever its
/// bytes.
pub proof fn lemma_decode_wrong_length(bytes: Seq<u8>)
    requires
        bytes.len() != 3,
    ensures
        spec_decode(bytes) is None,
{
}

/// Decoding is deterministic: two messages with the same bytes decode to
/// the identical result. Together with [`Event::from_midi`]'s contract,
/// repeated calls on the same byte sequence always return the same event.
pub proof fn lemma_decode_deterministic(b1: Seq<u8>, b2: Seq<u8>)
    requires
        b1 == b2,
    ensures
        spec_decode(b1) == spec_decode(b2),
{
}

} // verus!
