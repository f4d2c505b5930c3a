use vstd::prelude::*;

use crate::sio::gamepad::{Gamepad, State as PadState};
use crate::sio::memory_card::MemoryCard;

verus! {

/// Which device the current exchange is with.
#[derive(Clone, Copy, PartialEq, Eq, Structural, Debug)]
pub enum CommState {
    Idle,
    GamepadComm,
    MemCardComm,
}

pub open spec fn pad_reset(p: Option<Gamepad>) -> Option<Gamepad> {
    match p {
        Some(g) => Some(Gamepad { state: PadState::Init, in_ack: false, ..g }),
        None => None,
    }
}

pub open spec fn card_reset(m: Option<MemoryCard>) -> Option<MemoryCard> {
    match m {
        Some(c) => Some(
            MemoryCard { in_ack: false, state: crate::sio::memory_card::State::Init, state_idx: 0, ..c },
        ),
        None => None,
    }
}

pub struct DeviceManager {
    pub current_state: CommState,
    pub gamepads: [Option<Gamepad>; 2],
    pub memcards: Vec<Option<MemoryCard>>,
}

impl DeviceManager {
    pub open spec fn wf(&self) -> bool {
        &&& self.memcards@.len() == 2
        &&& forall|i: int| 0 <= i < 2 ==> (#[trigger] self.memcards@[i] matches Some(c) ==> c.wf())
    }

    /// Whether the device addressed by the host's byte `data` on `port` can
    /// take it.
    pub open spec fn byte_ok(&self, port: int, data: u8) -> bool {
        let pad = self.current_state == CommState::GamepadComm || (self.current_state == CommState::Idle
            && data == 0x01);
        let card = self.current_state == CommState::MemCardComm || (self.current_state == CommState::Idle
            && data == 0x81);
        &&& pad ==> (self.gamepads@[port] matches Some(g) ==> (g.state == PadState::IdHigh ==> data == 0))
        &&& card ==> (self.memcards@[port] matches Some(c) ==> c.step_ok(data))
    }

    /// A manager with the given pads and cards, no exchange going on.
    pub fn new(gamepads: [Option<Gamepad>; 2], memcards: Vec<Option<MemoryCard>>) -> (d: Self)
        requires
            memcards@.len() == 2,
            forall|i: int| 0 <= i < 2 ==> (#[trigger] memcards@[i] matches Some(c) ==> c.wf()),
        ensures
            d.wf(),
            d.current_state == CommState::Idle,
            d.gamepads == gamepads,
            d.memcards@ == memcards@,
    {
        DeviceManager { current_state: CommState::Idle, gamepads, memcards }
    }

    /// `after` is this manager reset: with no exchange going on, it is
    /// unchanged; else every pad and card is back to waiting.
    pub open spec fn reset_to(&self, after: &DeviceManager) -> bool {
        &&& after.wf()
        &&& after.current_state == CommState::Idle
        &&& self.current_state == CommState::Idle ==> *after == *self
        &&& self.current_state != CommState::Idle ==> {
            &&& after.gamepads@[0] == pad_reset(self.gamepads@[0])
            &&& after.gamepads@[1] == pad_reset(self.gamepads@[1])
            &&& after.memcards@[0] == card_reset(self.memcards@[0])
            &&& after.memcards@[1] == card_reset(self.memcards@[1])
        }
    }

    /// A reset manager takes what `byte_ok_after_reset` allows.
    pub proof fn lemma_reset_byte_ok(&self, after: &DeviceManager, port: int, data: u8)
        requires
            0 <= port < 2,
            self.reset_to(after),
            self.byte_ok_after_reset(port, data),
        ensures
            after.byte_ok(port, data),
    {
    }

    /// Ends the current exchange: all pads and cards go back to waiting for
    /// a new one.
    pub fn reset(&mut self)
        requires
            old(self).wf(),
        ensures
            old(self).reset_to(final(self)),
    {
        if self.current_state == CommState::Idle {
            return;
        }
        for i in 0..2usize
            invariant
                self.memcards@.len() == 2,
                forall|j: int| 0 <= j < 2 ==> (#[trigger] self.memcards@[j] matches Some(c) ==> c.wf()),
                self.gamepads@[0] == (if i > 0 { pad_reset(old(self).gamepads@[0]) } else { old(self).gamepads@[0] }),
                self.gamepads@[1] == (if i > 1 { pad_reset(old(self).gamepads@[1]) } else { old(self).gamepads@[1] }),
                self.memcards@[0] == (if i > 0 { card_reset(old(self).memcards@[0]) } else { old(self).memcards@[0] }),
                self.memcards@[1] == (if i > 1 { card_reset(old(self).memcards@[1]) } else { old(self).memcards@[1] }),
        {
            let pad = self.gamepads[i];
            if let Some(mut g) = pad {
                g.reset();
                self.gamepads[i] = Some(g);
            }
            let slot = self.memcards.remove(i);
            let slot = match slot {
                Some(mut c) => {
                    c.reset();
                    Some(c)
                },
                None => None,
            };
            self.memcards.insert(i, slot);
        }
        self.current_state = CommState::Idle;
    }

    fn process_gamepad_communication(&mut self, port: usize, data: u8) -> (r: (u8, CommState))
        requires
            port < 2,
            old(self).gamepads@[port as int] matches Some(g) ==> (g.state == PadState::IdHigh ==> data == 0),
        ensures
            match old(self).gamepads@[port as int] {
                None => r == (0xFFu8, CommState::Idle) && *final(self) == *old(self),
                Some(g) => final(self).gamepads@[port as int] matches Some(g2) && g.exchanged(data, g2, r.0)
                    && r.1 == (if g2.in_ack { CommState::GamepadComm } else { CommState::Idle })
                    && *final(self) == (DeviceManager { gamepads: final(self).gamepads, ..*old(self) })
                    && final(self).gamepads@[1 - port] == old(self).gamepads@[1 - port],
            },
    {
        match self.gamepads[port] {
            None => (0xFF, CommState::Idle),
            Some(mut g) => {
                let byte = g.send_and_receive_byte(data);
                let state = if g.in_ack() { CommState::GamepadComm } else { CommState::Idle };
                self.gamepads[port] = Some(g);
                (byte, state)
            },
        }
    }

    fn process_memcard_communication(&mut self, port: usize, data: u8) -> (r: (u8, CommState))
        requires
            old(self).wf(),
            port < 2,
            old(self).memcards@[port as int] matches Some(c) ==> c.step_ok(data),
        ensures
            final(self).wf(),
            match old(self).memcards@[port as int] {
                None => r == (0xFFu8, CommState::Idle) && final(self).memcards@ == old(self).memcards@
                    && final(self).gamepads == old(self).gamepads && final(self).current_state == old(self).current_state,
                Some(c) => final(self).memcards@[port as int] matches Some(c2) && c.exchanged(data, &c2, r.0)
                    && r.1 == (if c2.in_ack { CommState::MemCardComm } else { CommState::Idle })
                    && final(self).memcards@[1 - port] == old(self).memcards@[1 - port]
                    && final(self).gamepads == old(self).gamepads
                    && final(self).current_state == old(self).current_state,
            },
    {
        let slot = self.memcards.remove(port);
        match slot {
            None => {
                self.memcards.insert(port, None);
                proof {
                    assert(self.memcards@ =~= old(self).memcards@);
                }
                (0xFF, CommState::Idle)
            },
            Some(mut c) => {
                let byte = c.send_and_receive_byte(data);
                let state = if c.in_ack() { CommState::MemCardComm } else { CommState::Idle };
                self.memcards.insert(port, Some(c));
                (byte, state)
            },
        }
    }

    /// What exchanging byte `data` on `port` does: `after` is the manager
    /// afterwards and `r` the device's answer and whether it acknowledged.
    pub open spec fn exchanged(&self, port: int, data: u8, after: &DeviceManager, r: (u8, bool)) -> bool {
        let pad = self.current_state == CommState::GamepadComm || (self.current_state == CommState::Idle
            && data == 0x01);
        let card = self.current_state == CommState::MemCardComm || (self.current_state == CommState::Idle
            && data == 0x81);
        &&& after.wf()
        &&& r.1 == (after.current_state != CommState::Idle)
        &&& pad ==> match self.gamepads@[port] {
            None => r.0 == 0xFF && after.current_state == CommState::Idle && after.gamepads == self.gamepads,
            Some(g) => after.gamepads@[port] matches Some(g2) && g.exchanged(data, g2, r.0)
                && after.current_state == (if g2.in_ack {
                CommState::GamepadComm
            } else {
                CommState::Idle
            }),
        }
        &&& pad ==> after.memcards@ == self.memcards@ && after.gamepads@[1 - port] == self.gamepads@[1 - port]
        &&& card ==> match self.memcards@[port] {
            None => r.0 == 0xFF && after.current_state == CommState::Idle && after.memcards@ == self.memcards@,
            Some(c) => after.memcards@[port] matches Some(c2) && c.exchanged(data, &c2, r.0)
                && after.current_state == (if c2.in_ack {
                CommState::MemCardComm
            } else {
                CommState::Idle
            }),
        }
        &&& card ==> after.gamepads == self.gamepads && after.memcards@[1 - port] == self.memcards@[1 - port]
        &&& !pad && !card ==> r.0 == 0xFF && *after == (DeviceManager {
            current_state: CommState::Idle,
            ..*self
        })
    }

    /// Whether the manager, once reset, takes byte `data` on `port`.
    pub open spec fn byte_ok_after_reset(&self, port: int, data: u8) -> bool {
        if self.current_state == CommState::Idle {
            self.byte_ok(port, data)
        } else {
            data == 0x81 ==> (card_reset(self.memcards@[port]) matches Some(c) ==> c.step_ok(data))
        }
    }

    /// Whether the device on `port` can take byte `data`.
    pub fn byte_allowed(&self, port: usize, data: u8) -> (r: bool)
        requires
            self.wf(),
            port < 2,
        ensures
            r == self.byte_ok(port as int, data),
    {
        let pad = self.current_state == CommState::GamepadComm || (self.current_state == CommState::Idle && data
            == 0x01);
        let card = self.current_state == CommState::MemCardComm || (self.current_state == CommState::Idle && data
            == 0x81);
        if pad {
            match &self.gamepads[port] {
                Some(g) => if g.state == PadState::IdHigh && data != 0 {
                    return false;
                },
                None => {},
            }
        }
        if card {
            match &self.memcards[port] {
                Some(c) => {
                    assert(self.memcards@[port as int] matches Some(m) && m.wf());
                    if !c.step_allowed(data) {
                        return false;
                    }
                },
                None => {},
            }
        }
        true
    }

    /// Whether the device on `port` can take byte `data` once an exchange
    /// cut short by a reset has been dropped.
    pub fn byte_allowed_after_reset(&self, port: usize, data: u8) -> (r: bool)
        requires
            self.wf(),
            port < 2,
        ensures
            r == self.byte_ok_after_reset(port as int, data),
    {
        if self.current_state == CommState::Idle {
            self.byte_allowed(port, data)
        } else {
            true
        }
    }

    /// Exchanges one byte between the host and the device on `port`: a new
    /// exchange starts with 01h for a pad or 81h for a memory card (any
    /// other byte gets FFh); the device's answer and whether it
    /// acknowledged (the exchange goes on) are returned.
    pub fn send_and_receive_byte(&mut self, port: usize, data: u8) -> (r: (u8, bool))
        requires
            old(self).wf(),
            port < 2,
            old(self).byte_ok(port as int, data),
        ensures
            old(self).exchanged(port as int, data, final(self), r),
    {
        let (byte, next_state) = match self.current_state {
            CommState::Idle => {
                if data == 0x01 {
                    self.process_gamepad_communication(port, data)
                } else if data == 0x81 {
                    self.process_memcard_communication(port, data)
                } else {
                    (0xFF, CommState::Idle)
                }
            },
            CommState::GamepadComm => self.process_gamepad_communication(port, data),
            CommState::MemCardComm => self.process_memcard_communication(port, data),
        };
        self.current_state = next_state;
        (byte, next_state != CommState::Idle)
    }
}

} // verus!
