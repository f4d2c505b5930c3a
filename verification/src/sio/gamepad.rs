use vstd::prelude::*;

verus! {

#[derive(Clone, Copy, PartialEq, Eq, Structural, Debug)]
pub enum State {
    Init,
    IdLow,
    IdHigh,
    SwitchLow,
    SwitchHigh,
    AnalogInput0,
    AnalogInput1,
    AnalogInput2,
    AnalogInput3,
}

#[derive(Clone, Copy, PartialEq, Eq, Structural, Debug)]
pub enum Mode {
    Digital,
    Analog,
}

#[derive(Clone, Copy, PartialEq, Eq, Structural, Debug)]
pub enum Button {
    Select,
    L3,
    R3,
    Start,
    Up,
    Right,
    Down,
    Left,
    L2,
    R2,
    L1,
    R1,
    Triangle,
    Circle,
    Cross,
    Square,
}

#[derive(Clone, Copy, PartialEq, Eq, Structural, Debug)]
pub enum Axis {
    RightX,
    RightY,
    LeftX,
    LeftY,
}

pub open spec fn state_index(s: State) -> int {
    match s {
        State::Init => 0,
        State::IdLow => 1,
        State::IdHigh => 2,
        State::SwitchLow => 3,
        State::SwitchHigh => 4,
        State::AnalogInput0 => 5,
        State::AnalogInput1 => 6,
        State::AnalogInput2 => 7,
        State::AnalogInput3 => 8,
    }
}

/// The number of steps of an exchange: 5 in digital mode, 9 in analog mode.
pub open spec fn table_len(mode: Mode) -> int {
    match mode {
        Mode::Digital => 5,
        Mode::Analog => 9,
    }
}

/// The state at step `k` of an exchange (the steps run through the states
/// in their order) and the byte the host must send to reach it, if any.
pub open spec fn table_entry(mode: Mode, k: int) -> (State, Option<u8>) {
    let state = if k == 0 {
        State::Init
    } else if k == 1 {
        State::IdLow
    } else if k == 2 {
        State::IdHigh
    } else if k == 3 {
        State::SwitchLow
    } else if k == 4 {
        State::SwitchHigh
    } else if k == 5 {
        State::AnalogInput0
    } else if k == 6 {
        State::AnalogInput1
    } else if k == 7 {
        State::AnalogInput2
    } else {
        State::AnalogInput3
    };
    let check: Option<u8> = if k == 0 {
        match mode {
            Mode::Digital => None,
            Mode::Analog => Some(0x00u8),
        }
    } else if k == 1 {
        Some(0x01u8)
    } else if k == 2 {
        Some(0x42u8)
    } else if k == 3 {
        Some(0x00u8)
    } else if k == 4 || k == 5 {
        None
    } else {
        Some(0x00u8)
    };
    (state, check)
}

/// The state that follows `current` when the host sends `byte`: none when
/// the byte is not the one the next step expects.
pub open spec fn next_state(mode: Mode, current: State, byte: u8) -> Option<State> {
    let e = table_entry(mode, (state_index(current) + 1) % table_len(mode));
    match e.1 {
        None => Some(e.0),
        Some(b) => if b == byte { Some(e.0) } else { None },
    }
}

/// The identification halfword: 5A41h for a digital pad, 5A73h for an
/// analog one.
pub open spec fn pad_id(mode: Mode) -> u16 {
    match mode {
        Mode::Digital => 0x5A41,
        Mode::Analog => 0x5A73,
    }
}

#[derive(Clone, Copy)]
pub struct Gamepad {
    pub state: State,
    pub mode: Mode,
    pub digital_switches: u16,
    /// Right X, right Y, left X, left Y.
    pub joystick_axes: [u8; 4],
    pub in_ack: bool,
}

impl Gamepad {
    /// The byte the pad answers in its current state.
    pub open spec fn reply(&self) -> u8 {
        match self.state {
            State::Init => 0xFF,
            State::IdLow => (pad_id(self.mode) % 0x100) as u8,
            State::IdHigh => (pad_id(self.mode) / 0x100) as u8,
            State::SwitchLow => (self.digital_switches % 0x100) as u8,
            State::SwitchHigh => (self.digital_switches / 0x100) as u8,
            State::AnalogInput0 => self.joystick_axes@[0],
            State::AnalogInput1 => self.joystick_axes@[1],
            State::AnalogInput2 => self.joystick_axes@[2],
            State::AnalogInput3 => self.joystick_axes@[3],
        }
    }

    /// `after` is this pad once it has exchanged byte `data` with the host,
    /// answering `r`.
    pub open spec fn exchanged(&self, data: u8, after: Self, r: u8) -> bool {
        match next_state(self.mode, self.state, data) {
            Some(s) => {
                &&& r == self.reply()
                &&& after == (Gamepad { state: s, in_ack: s != State::Init, ..*self })
            },
            None => {
                &&& r == 0xFF
                &&& after == (Gamepad { state: State::Init, in_ack: false, ..*self })
            },
        }
    }

    /// A digital pad with no button pressed and its sticks centered.
    pub fn new() -> (g: Self)
        ensures
            g.state == State::Init,
            g.mode == Mode::Digital,
            g.digital_switches == 0xFFFF,
            g.joystick_axes@ == seq![0x80u8, 0x80u8, 0x80u8, 0x80u8],
            !g.in_ack,
    {
        let g = Gamepad {
            state: State::Init,
            mode: Mode::Digital,
            digital_switches: 0xFFFF,
            joystick_axes: [0x80; 4],
            in_ack: false,
        };
        assert(g.joystick_axes@ =~= seq![0x80u8, 0x80u8, 0x80u8, 0x80u8]);
        g
    }

    /// Exchanges one byte with the host: the pad answers for its current
    /// state and moves to the next step when the host's byte is the one
    /// expected; any other byte aborts the exchange (answer FFh).
    pub fn send_and_receive_byte(&mut self, data: u8) -> (r: u8)
        requires
            old(self).state == State::IdHigh ==> data == 0,
        ensures
            old(self).exchanged(data, *final(self), r),
    {
        let id: u16 = match self.mode {
            Mode::Digital => 0x5A41,
            Mode::Analog => 0x5A73,
        };
        let received: u8 = match self.state {
            State::Init => 0xFF,
            State::IdLow => (id % 0x100) as u8,
            State::IdHigh => (id / 0x100) as u8,
            State::SwitchLow => (self.digital_switches % 0x100) as u8,
            State::SwitchHigh => (self.digital_switches / 0x100) as u8,
            State::AnalogInput0 => self.joystick_axes[0],
            State::AnalogInput1 => self.joystick_axes[1],
            State::AnalogInput2 => self.joystick_axes[2],
            State::AnalogInput3 => self.joystick_axes[3],
        };
        match next(self.mode, self.state, data) {
            Some(state) => {
                self.state = state;
                self.in_ack = state != State::Init;
                received
            },
            None => {
                self.reset();
                0xFF
            },
        }
    }

    /// Ends any exchange.
    pub fn reset(&mut self)
        ensures
            *final(self) == (Gamepad { state: State::Init, in_ack: false, ..*old(self) }),
    {
        self.state = State::Init;
        self.in_ack = false;
    }

    /// Sets both sticks, each as (x, y).
    pub fn set_stick_axis(&mut self, left: (u8, u8), right: (u8, u8))
        ensures
            final(self).joystick_axes@ == seq![right.0, right.1, left.0, left.1],
            *final(self) == (Gamepad { joystick_axes: final(self).joystick_axes, ..*old(self) }),
    {
        self.joystick_axes = [right.0, right.1, left.0, left.1];
        assert(self.joystick_axes@ =~= seq![right.0, right.1, left.0, left.1]);
    }

    /// Sets the button switches (a cleared bit is a pressed button).
    pub fn set_buttons(&mut self, new_value: u16)
        ensures
            *final(self) == (Gamepad { digital_switches: new_value, ..*old(self) }),
    {
        self.digital_switches = new_value;
    }

    /// Switches between digital and analog mode; a change ends any exchange.
    pub fn set_analog_mode(&mut self, in_analog: bool)
        ensures
            (old(self).mode == Mode::Analog) == in_analog ==> *final(self) == *old(self),
            (old(self).mode == Mode::Analog) != in_analog ==> *final(self) == (Gamepad {
                mode: if in_analog { Mode::Analog } else { Mode::Digital },
                state: State::Init,
                in_ack: false,
                ..*old(self)
            }),
    {
        let analog = match self.mode {
            Mode::Digital => false,
            Mode::Analog => true,
        };
        if analog == in_analog {
            return;
        }
        self.mode = if in_analog { Mode::Analog } else { Mode::Digital };
        self.reset();
    }

    /// Whether the pad acknowledges the byte just exchanged (it is inside an
    /// exchange).
    pub fn in_ack(&self) -> (r: bool)
        ensures
            r == self.in_ack,
    {
        self.in_ack
    }
}

fn index_of(s: State) -> (r: usize)
    ensures
        r == state_index(s),
{
    match s {
        State::Init => 0,
        State::IdLow => 1,
        State::IdHigh => 2,
        State::SwitchLow => 3,
        State::SwitchHigh => 4,
        State::AnalogInput0 => 5,
        State::AnalogInput1 => 6,
        State::AnalogInput2 => 7,
        State::AnalogInput3 => 8,
    }
}

fn entry(mode: Mode, k: usize) -> (r: (State, Option<u8>))
    requires
        k < 9,
    ensures
        r == table_entry(mode, k as int),
{
    let state = if k == 0 {
        State::Init
    } else if k == 1 {
        State::IdLow
    } else if k == 2 {
        State::IdHigh
    } else if k == 3 {
        State::SwitchLow
    } else if k == 4 {
        State::SwitchHigh
    } else if k == 5 {
        State::AnalogInput0
    } else if k == 6 {
        State::AnalogInput1
    } else if k == 7 {
        State::AnalogInput2
    } else {
        State::AnalogInput3
    };
    let check: Option<u8> = if k == 0 {
        match mode {
            Mode::Digital => None,
            Mode::Analog => Some(0x00u8),
        }
    } else if k == 1 {
        Some(0x01u8)
    } else if k == 2 {
        Some(0x42u8)
    } else if k == 3 {
        Some(0x00u8)
    } else if k == 4 || k == 5 {
        None
    } else {
        Some(0x00u8)
    };
    (state, check)
}

/// The state that follows `current` on byte `byte`, if the byte is valid.
pub fn next(mode: Mode, current: State, byte: u8) -> (r: Option<State>)
    ensures
        r == next_state(mode, current, byte),
{
    let len: usize = match mode {
        Mode::Digital => 5,
        Mode::Analog => 9,
    };
    let (state, check) = entry(mode, (index_of(current) + 1) % len);
    match check {
        None => Some(state),
        Some(b) => if b == byte { Some(state) } else { None },
    }
}

} // verus!
