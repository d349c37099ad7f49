//! The hand-held controller: button edge detection and screen commands.
//!
//! The raw report of the controller (which buttons are down, where the
//! sticks are) is read from the radio by the caller and enters here as
//! plain values; this module keeps the per-button cache that turns level
//! readings into press and release edges, and computes the text commands
//! sent to the controller's screen.

use vstd::prelude::*;

verus! {

/// Number of digital buttons on the controller.
pub const BUTTON_COUNT: usize = 12;

/// Which of the two paired controllers is meant.
#[derive(Copy, Clone, Debug, PartialEq, Eq, Structural)]
pub enum ControllerID {
    /// The primary controller.
    Master,
    /// The partner controller.
    Partner,
}

impl ControllerID {
    /// The numeric id of the controller, as used on the wire.
    pub fn as_u32(&self) -> (r: u32)
        ensures
            r == match *self {
                ControllerID::Master => 0u32,
                ControllerID::Partner => 1u32,
            },
    {
        match *self {
            ControllerID::Master => 0,
            ControllerID::Partner => 1,
        }
    }
}

/// The connection state of a controller.
#[derive(Copy, Clone, Debug, PartialEq, Eq, Structural)]
pub enum ControllerStatus {
    /// Not connected.
    Disconnected,
    /// Connected over a cable.
    Tethered,
    /// Connected over the radio.
    Wireless,
    /// The report carried an unknown code.
    Unknown,
}

/// The state a connection-status code denotes.
pub open spec fn decode_connection(status: u32) -> ControllerStatus {
    if status == 0 {
        ControllerStatus::Disconnected
    } else if status == 1 {
        ControllerStatus::Tethered
    } else if status == 2 {
        ControllerStatus::Wireless
    } else {
        ControllerStatus::Unknown
    }
}

/// A digital button on the controller.
#[derive(Copy, Clone, Debug, PartialEq, Eq, Structural)]
pub enum ControllerButton {
    L1,
    L2,
    R1,
    R2,
    Up,
    Down,
    Left,
    Right,
    X,
    B,
    Y,
    A,
}

/// The position of a button in the cache of previously read values.
pub open spec fn button_index(b: ControllerButton) -> int {
    match b {
        ControllerButton::L1 => 0,
        ControllerButton::L2 => 1,
        ControllerButton::R1 => 2,
        ControllerButton::R2 => 3,
        ControllerButton::Up => 4,
        ControllerButton::Down => 5,
        ControllerButton::Left => 6,
        ControllerButton::Right => 7,
        ControllerButton::X => 8,
        ControllerButton::B => 9,
        ControllerButton::Y => 10,
        ControllerButton::A => 11,
    }
}

impl ControllerButton {
    /// The position of the button in the cache of previously read values.
    pub fn cache_index(&self) -> (r: usize)
        ensures
            r == button_index(*self),
            r < BUTTON_COUNT,
    {
        match *self {
            ControllerButton::L1 => 0,
            ControllerButton::L2 => 1,
            ControllerButton::R1 => 2,
            ControllerButton::R2 => 3,
            ControllerButton::Up => 4,
            ControllerButton::Down => 5,
            ControllerButton::Left => 6,
            ControllerButton::Right => 7,
            ControllerButton::X => 8,
            ControllerButton::B => 9,
            ControllerButton::Y => 10,
            ControllerButton::A => 11,
        }
    }

    /// The index of the button in the controller's report; the buttons
    /// start after the analog axes.
    pub fn code(&self) -> (r: u32)
        ensures
            r == button_index(*self) + 6,
    {
        self.cache_index() as u32 + 6
    }
}

/// An analog input on the controller.
#[derive(Copy, Clone, Debug, PartialEq, Eq, Structural)]
pub enum ControllerAxis {
    LeftX,
    LeftY,
    RightX,
    RightY,
}

impl ControllerAxis {
    /// The index of the axis in the controller's report.
    pub fn code(&self) -> (r: u32)
        ensures
            r == match *self {
                ControllerAxis::LeftX => 0u32,
                ControllerAxis::LeftY => 1u32,
                ControllerAxis::RightX => 2u32,
                ControllerAxis::RightY => 3u32,
            },
    {
        match *self {
            ControllerAxis::LeftX => 0,
            ControllerAxis::LeftY => 1,
            ControllerAxis::RightX => 2,
            ControllerAxis::RightY => 3,
        }
    }
}

/// A text command for the controller's screen: which column and line to
/// write, and what.  Special line numbers carry the clear-screen and
/// rumble requests of the protocol.
pub struct TextWrite {
    /// The column the text starts in.
    pub column: u32,
    /// The line written to.
    pub line: u32,
    /// The text itself.
    pub text: String,
}

/// The screen line that clears the whole screen when written to.
pub const CLEAR_SCREEN_LINE: u32 = 255;

/// The screen line that rumbles the controller when written to.
pub const RUMBLE_LINE: u32 = 3;

/// A handle on one controller: its id and the per-button cache behind
/// edge detection.
pub struct Controller {
    id: ControllerID,
    button_status: Vec<bool>,
}

impl Controller {
    /// The id of the controller.
    pub closed spec fn id_spec(self) -> ControllerID {
        self.id
    }

    /// The previously read value of each button.
    pub closed spec fn cache(self) -> Seq<bool> {
        self.button_status@
    }

    /// The cache covers every button.
    pub open spec fn wf(self) -> bool {
        self.cache().len() == BUTTON_COUNT
    }

    /// Creates a handle on the controller with the given id, with every
    /// button remembered as released.
    pub fn new(id: ControllerID) -> (r: Controller)
        ensures
            r.wf(),
            r.id_spec() == id,
            forall|i: int| 0 <= i < BUTTON_COUNT ==> !r.cache()[i],
    {
        let mut button_status: Vec<bool> = Vec::new();
        let mut i: usize = 0;
        while i < BUTTON_COUNT
            invariant
                i <= BUTTON_COUNT,
                button_status@.len() == i,
                forall|q: int| 0 <= q < i ==> !button_status@[q],
            decreases BUTTON_COUNT - i,
        {
            button_status.push(false);
            i += 1;
        }
        Controller { id, button_status }
    }

    /// Whether the button has just been pressed: true exactly when the
    /// fresh reading `pressed` is down and differs from the cached one.
    /// On any change the cache takes the fresh reading.
    pub fn get_button_pressed(&mut self, button: ControllerButton, pressed: bool) -> (r: bool)
        requires
            old(self).wf(),
        ensures
            final(self).wf(),
            final(self).id_spec() == old(self).id_spec(),
            r == (old(self).cache()[button_index(button)] != pressed && pressed),
            final(self).cache() == if old(self).cache()[button_index(button)] != pressed {
                old(self).cache().update(button_index(button), pressed)
            } else {
                old(self).cache()
            },
    {
        let idx = button.cache_index();
        let cached = self.button_status[idx];
        if cached != pressed {
            self.button_status.set(idx, pressed);
            pressed
        } else {
            false
        }
    }

    /// Whether the button has just been released: true exactly when the
    /// fresh reading `pressed` is up and differs from the cached one.
    /// On any change the cache takes the fresh reading.
    pub fn get_button_released(&mut self, button: ControllerButton, pressed: bool) -> (r: bool)
        requires
            old(self).wf(),
        ensures
            final(self).wf(),
            final(self).id_spec() == old(self).id_spec(),
            r == (old(self).cache()[button_index(button)] != pressed && !pressed),
            final(self).cache() == if old(self).cache()[button_index(button)] != pressed {
                old(self).cache().update(button_index(button), pressed)
            } else {
                old(self).cache()
            },
    {
        let idx = button.cache_index();
        let cached = self.button_status[idx];
        if cached != pressed {
            self.button_status.set(idx, pressed);
            !pressed
        } else {
            false
        }
    }

    /// Decodes the connection-status code as read from the radio.
    pub fn connection_status(&self, status: u32) -> (r: ControllerStatus)
        ensures
            r == decode_connection(status),
    {
        if status == 0 {
            ControllerStatus::Disconnected
        } else if status == 1 {
            ControllerStatus::Tethered
        } else if status == 2 {
            ControllerStatus::Wireless
        } else {
            ControllerStatus::Unknown
        }
    }

    /// The text command that clears the controller's screen: an empty
    /// write to the clear-screen line.
    pub fn clear_screen(&self) -> (r: TextWrite)
        ensures
            r.column == 0,
            r.line == CLEAR_SCREEN_LINE,
            r.text@ == Seq::<char>::empty(),
    {
        TextWrite { column: 0, line: CLEAR_SCREEN_LINE, text: String::new() }
    }

    /// The text command that rumbles the controller: the pattern written
    /// to the rumble line.  Dots are short rumbles, dashes long ones, and
    /// spaces are pauses.
    pub fn rumble(&self, pattern: String) -> (r: TextWrite)
        ensures
            r.column == 0,
            r.line == RUMBLE_LINE,
            r.text == pattern,
    {
        TextWrite { column: 0, line: RUMBLE_LINE, text: pattern }
    }
}

} // verus!
