//! Raw physical inputs and the device families they come from.
//!
//! The host toolkit reports its device state in the engine's own plain code
//! spaces: keyboard keys and mouse buttons as small integer codes, gamepads by
//! an integer identifier, gamepad axes by an axis code split into a positive
//! and a negative pole. The constants below name the codes that the default
//! bindings use; a host is free to map the rest of its keys to any other
//! codes.

use vstd::prelude::*;

verus! {

/// Keyboard code for the up arrow key.
pub const KEY_ARROW_UP: u32 = 1;

/// Keyboard code for the down arrow key.
pub const KEY_ARROW_DOWN: u32 = 2;

/// Keyboard code for the left arrow key.
pub const KEY_ARROW_LEFT: u32 = 3;

/// Keyboard code for the right arrow key.
pub const KEY_ARROW_RIGHT: u32 = 4;

/// Keyboard code for the W key.
pub const KEY_W: u32 = 5;

/// Keyboard code for the A key.
pub const KEY_A: u32 = 6;

/// Keyboard code for the S key.
pub const KEY_S: u32 = 7;

/// Keyboard code for the D key.
pub const KEY_D: u32 = 8;

/// Keyboard code for the Enter key.
pub const KEY_ENTER: u32 = 9;

/// Keyboard code for the numpad Enter key.
pub const KEY_NUMPAD_ENTER: u32 = 10;

/// Keyboard code for the space bar.
pub const KEY_SPACE: u32 = 11;

/// Gamepad button code for the d-pad's up direction.
pub const BUTTON_DPAD_UP: u16 = 1;

/// Gamepad button code for the d-pad's down direction.
pub const BUTTON_DPAD_DOWN: u16 = 2;

/// Gamepad button code for the d-pad's left direction.
pub const BUTTON_DPAD_LEFT: u16 = 3;

/// Gamepad button code for the d-pad's right direction.
pub const BUTTON_DPAD_RIGHT: u16 = 4;

/// Gamepad button code for the south face button.
pub const BUTTON_SOUTH: u16 = 5;

/// Axis code for the left stick's horizontal axis.
pub const AXIS_LEFT_STICK_X: u16 = 1;

/// Axis code for the left stick's vertical axis.
pub const AXIS_LEFT_STICK_Y: u16 = 2;

/// Axis code for the left trigger axis.
pub const AXIS_LEFT_Z: u16 = 3;

/// Axis code for the right stick's horizontal axis.
pub const AXIS_RIGHT_STICK_X: u16 = 4;

/// Axis code for the right stick's vertical axis.
pub const AXIS_RIGHT_STICK_Y: u16 = 5;

/// Axis code for the right trigger axis.
pub const AXIS_RIGHT_Z: u16 = 6;

/// Input from the keyboard, the mouse or a gamepad.
///
/// Gamepad variants carry the gamepad's identifier first. An axis is split
/// into two pole inputs: the positive pole is "pressed" while the axis level
/// is above half of its range, the negative pole while it is below minus half.
#[derive(Clone, Copy, PartialEq, Eq, Structural, Debug)]
pub enum KbgpInput {
    Keyboard(u32),
    MouseButton(u16),
    MouseWheelUp,
    MouseWheelDown,
    MouseWheelLeft,
    MouseWheelRight,
    GamepadAxisPositive(u32, u16),
    GamepadAxisNegative(u32, u16),
    GamepadButton(u32, u16),
}

/// The device family an input originates from.
#[derive(Clone, Copy, PartialEq, Eq, Structural, Debug)]
pub enum KbgpInputSource {
    KeyboardAndMouse,
    Gamepad(u32),
}

impl KbgpInput {
    /// The source an input belongs to: the keyboard and the mouse count as
    /// one family, each gamepad as its own.
    pub open spec fn source(self) -> KbgpInputSource {
        match self {
            KbgpInput::GamepadAxisPositive(pad, _) => KbgpInputSource::Gamepad(pad),
            KbgpInput::GamepadAxisNegative(pad, _) => KbgpInputSource::Gamepad(pad),
            KbgpInput::GamepadButton(pad, _) => KbgpInputSource::Gamepad(pad),
            _ => KbgpInputSource::KeyboardAndMouse,
        }
    }

    /// Return the source responsible for this input.
    pub fn get_source(&self) -> (r: KbgpInputSource)
        ensures
            r == self.source(),
    {
        match self {
            KbgpInput::Keyboard(_) => KbgpInputSource::KeyboardAndMouse,
            KbgpInput::MouseButton(_) => KbgpInputSource::KeyboardAndMouse,
            KbgpInput::MouseWheelUp => KbgpInputSource::KeyboardAndMouse,
            KbgpInput::MouseWheelDown => KbgpInputSource::KeyboardAndMouse,
            KbgpInput::MouseWheelLeft => KbgpInputSource::KeyboardAndMouse,
            KbgpInput::MouseWheelRight => KbgpInputSource::KeyboardAndMouse,
            KbgpInput::GamepadAxisPositive(pad, _) => KbgpInputSource::Gamepad(*pad),
            KbgpInput::GamepadAxisNegative(pad, _) => KbgpInputSource::Gamepad(*pad),
            KbgpInput::GamepadButton(pad, _) => KbgpInputSource::Gamepad(*pad),
        }
    }

    /// Compute the input that is mutually exclusive with this one, if any:
    /// the two poles of one gamepad axis exclude each other, as do opposite
    /// mouse wheel directions.
    pub fn opposite_of(&self) -> (r: Option<KbgpInput>)
        ensures
            r == self.opposite(),
    {
        match self {
            KbgpInput::GamepadAxisPositive(pad, axis) => Some(
                KbgpInput::GamepadAxisNegative(*pad, *axis),
            ),
            KbgpInput::GamepadAxisNegative(pad, axis) => Some(
                KbgpInput::GamepadAxisPositive(*pad, *axis),
            ),
            KbgpInput::MouseWheelUp => Some(KbgpInput::MouseWheelDown),
            KbgpInput::MouseWheelDown => Some(KbgpInput::MouseWheelUp),
            KbgpInput::MouseWheelLeft => Some(KbgpInput::MouseWheelRight),
            KbgpInput::MouseWheelRight => Some(KbgpInput::MouseWheelLeft),
            _ => None,
        }
    }

    /// The input that is mutually exclusive with this one, if any.
    pub open spec fn opposite(self) -> Option<KbgpInput> {
        match self {
            KbgpInput::GamepadAxisPositive(pad, axis) => Some(
                KbgpInput::GamepadAxisNegative(pad, axis),
            ),
            KbgpInput::GamepadAxisNegative(pad, axis) => Some(
                KbgpInput::GamepadAxisPositive(pad, axis),
            ),
            KbgpInput::MouseWheelUp => Some(KbgpInput::MouseWheelDown),
            KbgpInput::MouseWheelDown => Some(KbgpInput::MouseWheelUp),
            KbgpInput::MouseWheelLeft => Some(KbgpInput::MouseWheelRight),
            KbgpInput::MouseWheelRight => Some(KbgpInput::MouseWheelLeft),
            _ => None,
        }
    }
}

impl KbgpInputSource {
    /// The gamepad of the source, or `None` if the source is keyboard or
    /// mouse.
    pub fn gamepad(&self) -> (r: Option<u32>)
        ensures
            match *self {
                KbgpInputSource::KeyboardAndMouse => r is None,
                KbgpInputSource::Gamepad(pad) => r == Some(pad),
            },
    {
        match self {
            KbgpInputSource::KeyboardAndMouse => None,
            KbgpInputSource::Gamepad(pad) => Some(*pad),
        }
    }
}

} // verus!

verus! {

/// The character for one decimal digit.
pub open spec fn digit_char(d: nat) -> char {
    if d == 0 {
        '0'
    } else if d == 1 {
        '1'
    } else if d == 2 {
        '2'
    } else if d == 3 {
        '3'
    } else if d == 4 {
        '4'
    } else if d == 5 {
        '5'
    } else if d == 6 {
        '6'
    } else if d == 7 {
        '7'
    } else if d == 8 {
        '8'
    } else {
        '9'
    }
}

/// The decimal digits of a number, most significant first.
pub open spec fn dec_seq(n: nat) -> Seq<char>
    decreases n,
{
    if n < 10 {
        seq![digit_char(n)]
    } else {
        dec_seq(n / 10).push(digit_char(n % 10))
    }
}

/// One decimal digit as text.
fn digit_str(d: u32) -> (s: &'static str)
    requires
        d < 10,
    ensures
        s@ =~= seq![digit_char(d as nat)],
{
    proof {
        reveal_strlit("0");
        reveal_strlit("1");
        reveal_strlit("2");
        reveal_strlit("3");
        reveal_strlit("4");
        reveal_strlit("5");
        reveal_strlit("6");
        reveal_strlit("7");
        reveal_strlit("8");
        reveal_strlit("9");
    }
    match d {
        0 => "0",
        1 => "1",
        2 => "2",
        3 => "3",
        4 => "4",
        5 => "5",
        6 => "6",
        7 => "7",
        8 => "8",
        _ => "9",
    }
}

/// Append a number's decimal digits to the text.
fn push_dec(out: &mut String, n: u32)
    ensures
        final(out)@ == old(out)@ + dec_seq(n as nat),
    decreases n,
{
    if n < 10 {
        let d = digit_str(n);
        out.append(d);
    } else {
        push_dec(out, n / 10);
        let ghost mid = out@;
        let d = digit_str(n % 10);
        out.append(d);
        proof {
            assert(out@ =~= old(out)@ + dec_seq((n / 10) as nat).push(
                digit_char((n % 10) as nat),
            ));
        }
    }
}

/// The text that describes one input.
pub open spec fn input_label(i: KbgpInput) -> Seq<char> {
    match i {
        KbgpInput::Keyboard(k) => "Key"@ + dec_seq(k as nat),
        KbgpInput::MouseButton(b) => "MouseButton"@ + dec_seq(b as nat),
        KbgpInput::MouseWheelUp => "MouseScrollUp"@,
        KbgpInput::MouseWheelDown => "MouseScrollDown"@,
        KbgpInput::MouseWheelLeft => "MouseScrollLeft"@,
        KbgpInput::MouseWheelRight => "MouseScrollRight"@,
        KbgpInput::GamepadButton(pad, b) => "["@ + dec_seq(pad as nat) + "]Button"@ + dec_seq(
            b as nat,
        ),
        KbgpInput::GamepadAxisPositive(pad, a) => "["@ + dec_seq(pad as nat) + "]Axis"@ + dec_seq(
            a as nat,
        ),
        KbgpInput::GamepadAxisNegative(pad, a) => "["@ + dec_seq(pad as nat) + "]-Axis"@ + dec_seq(
            a as nat,
        ),
    }
}

/// Append one input's description to the text.
fn push_label(out: &mut String, i: &KbgpInput)
    ensures
        final(out)@ == old(out)@ + input_label(*i),
{
    match i {
        KbgpInput::Keyboard(k) => {
            out.append("Key");
            push_dec(out, *k);
            proof {
                assert(out@ =~= old(out)@ + ("Key"@ + dec_seq(*k as nat)));
            }
        },
        KbgpInput::MouseButton(b) => {
            out.append("MouseButton");
            push_dec(out, *b as u32);
            proof {
                assert(out@ =~= old(out)@ + ("MouseButton"@ + dec_seq(*b as nat)));
            }
        },
        KbgpInput::MouseWheelUp => {
            out.append("MouseScrollUp");
        },
        KbgpInput::MouseWheelDown => {
            out.append("MouseScrollDown");
        },
        KbgpInput::MouseWheelLeft => {
            out.append("MouseScrollLeft");
        },
        KbgpInput::MouseWheelRight => {
            out.append("MouseScrollRight");
        },
        KbgpInput::GamepadButton(pad, b) => {
            out.append("[");
            push_dec(out, *pad);
            out.append("]Button");
            push_dec(out, *b as u32);
            proof {
                assert(out@ =~= old(out)@ + ("["@ + dec_seq(*pad as nat) + "]Button"@ + dec_seq(
                    *b as nat,
                )));
            }
        },
        KbgpInput::GamepadAxisPositive(pad, a) => {
            out.append("[");
            push_dec(out, *pad);
            out.append("]Axis");
            push_dec(out, *a as u32);
            proof {
                assert(out@ =~= old(out)@ + ("["@ + dec_seq(*pad as nat) + "]Axis"@ + dec_seq(
                    *a as nat,
                )));
            }
        },
        KbgpInput::GamepadAxisNegative(pad, a) => {
            out.append("[");
            push_dec(out, *pad);
            out.append("]-Axis");
            push_dec(out, *a as u32);
            proof {
                assert(out@ =~= old(out)@ + ("["@ + dec_seq(*pad as nat) + "]-Axis"@ + dec_seq(
                    *a as nat,
                )));
            }
        },
    }
}

/// The text that describes a chord from its `i`-th input on: the inputs'
/// descriptions joined by a separator.
pub open spec fn chord_label_from(chord: Seq<KbgpInput>, i: int) -> Seq<char>
    decreases chord.len() - i,
{
    if i < 0 || i >= chord.len() {
        Seq::empty()
    } else if i == 0 {
        input_label(chord[0]) + chord_label_from(chord, 1)
    } else {
        " & "@ + input_label(chord[i]) + chord_label_from(chord, i + 1)
    }
}

impl KbgpInput {
    /// Create a string that describes a chord of multiple inputs, joined by
    /// a separator.
    pub fn format_chord(chord: &Vec<KbgpInput>) -> (r: String)
        ensures
            r@ == chord_label_from(chord@, 0),
    {
        let mut out = String::new();
        let n = chord.len();
        let mut i: usize = 0;
        while i < n
            invariant
                n == chord@.len(),
                i <= n,
                chord_label_from(chord@, 0) == out@ + chord_label_from(chord@, i as int),
            decreases n - i,
        {
            let ghost pre = out@;
            if i > 0 {
                out.append(" & ");
            }
            push_label(&mut out, &chord[i]);
            proof {
                if i == 0 {
                    assert(out@ =~= pre + input_label(chord@[0]));
                    assert(pre + chord_label_from(chord@, 0) =~= out@ + chord_label_from(
                        chord@,
                        1,
                    ));
                } else {
                    assert(out@ =~= pre + (" & "@ + input_label(chord@[i as int])));
                    assert(pre + chord_label_from(chord@, i as int) =~= out@ + chord_label_from(
                        chord@,
                        i as int + 1,
                    ));
                }
            }
            i = i + 1;
        }
        proof {
            assert(chord_label_from(chord@, 0) =~= out@ + chord_label_from(chord@, n as int));
            assert(out@ + Seq::<char>::empty() =~= out@);
        }
        out
    }
}

} // verus!
