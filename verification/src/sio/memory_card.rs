use vstd::prelude::*;

verus! {

/// Size in bytes of one sector (frame) of the card.
pub const FRAME_SIZE: usize = 0x80;

/// Size in bytes of a card: 1024 sectors.
pub const CARD_SIZE: usize = 0x2_0000;

#[derive(Clone, Copy, PartialEq, Eq, Structural, Debug)]
pub enum EndResponse {
    Good,
    BadChecksum,
    BadSector,
}

pub open spec fn end_code(e: EndResponse) -> u8 {
    match e {
        EndResponse::Good => 0x47,
        EndResponse::BadChecksum => 0x4E,
        EndResponse::BadSector => 0xFF,
    }
}

#[derive(Clone, Copy, PartialEq, Eq, Structural, Debug)]
pub enum State {
    Init,
    Flag,
    CardId1,
    CardId2,
    CmdAck1,
    CmdAck2,
    Recv04h,
    Recv00h,
    Recv80h,
    SendMsb,
    SendLsb,
    SendSector,
    RecvSector,
    SendChecksum,
    RecvChecksum,
    AckMsb,
    AckLsb,
    MemEnd,
}

#[derive(Clone, Copy, PartialEq, Eq, Structural, Debug)]
pub enum Command {
    Read,
    Write,
    GetId,
}

pub open spec fn table_len(c: Command) -> int {
    match c {
        Command::Read => 13,
        Command::Write => 11,
        Command::GetId => 10,
    }
}

/// Step `k` of command `c`: its state and the byte the host must send to
/// reach it, if any.
pub open spec fn table_entry(c: Command, k: int) -> (State, Option<u8>) {
    if k == 0 {
        (State::Init, None)
    } else if k == 1 {
        (State::Flag, Some(0x81u8))
    } else if k == 2 {
        (State::CardId1, Some(match c {
            Command::Read => 0x52u8,
            Command::Write => 0x57u8,
            Command::GetId => 0x53u8,
        }))
    } else if k == 3 {
        (State::CardId2, Some(0x00u8))
    } else {
        match c {
            Command::Read => if k == 4 {
                (State::SendMsb, Some(0x00u8))
            } else if k == 5 {
                (State::SendLsb, None)
            } else if k == 6 {
                (State::CmdAck1, None)
            } else if k == 7 {
                (State::CmdAck2, Some(0x00u8))
            } else if k == 8 {
                (State::AckMsb, Some(0x00u8))
            } else if k == 9 {
                (State::AckLsb, Some(0x00u8))
            } else if k == 10 {
                (State::RecvSector, Some(0x00u8))
            } else if k == 11 {
                (State::RecvChecksum, Some(0x00u8))
            } else {
                (State::MemEnd, Some(0x00u8))
            },
            Command::Write => if k == 4 {
                (State::SendMsb, Some(0x00u8))
            } else if k == 5 {
                (State::SendLsb, None)
            } else if k == 6 {
                (State::SendSector, None)
            } else if k == 7 {
                (State::SendChecksum, None)
            } else if k == 8 {
                (State::CmdAck1, None)
            } else if k == 9 {
                (State::CmdAck2, Some(0x00u8))
            } else {
                (State::MemEnd, Some(0x00u8))
            },
            Command::GetId => if k == 4 {
                (State::CmdAck1, Some(0x00u8))
            } else if k == 5 {
                (State::CmdAck2, Some(0x00u8))
            } else if k == 6 {
                (State::Recv04h, Some(0x00u8))
            } else if k == 7 || k == 8 {
                (State::Recv00h, Some(0x00u8))
            } else {
                (State::Recv80h, Some(0x00u8))
            },
        }
    }
}

/// The command after the host's byte in state `current`: in the flag
/// state, 52h selects a read, 57h a write and 53h the ID command.
pub open spec fn command_after(c: Command, current: State, recv: u8) -> Command {
    if current == State::Flag && recv == 0x52 {
        Command::Read
    } else if current == State::Flag && recv == 0x57 {
        Command::Write
    } else if current == State::Flag && recv == 0x53 {
        Command::GetId
    } else {
        c
    }
}

/// The next state and step index, when `recv` is a valid byte for the next
/// step of the command (in the flag state, it must also name a command).
pub open spec fn command_next(c: Command, current: State, recv: u8, idx: int) -> Option<(State, usize)> {
    if current == State::Flag && recv != 0x52 && recv != 0x57 && recv != 0x53 {
        None
    } else {
        let c2 = command_after(c, current, recv);
        let ni = (idx + 1) % table_len(c2);
        let e = table_entry(c2, ni);
        match e.1 {
            None => Some((e.0, ni as usize)),
            Some(b) => if b == recv { Some((e.0, ni as usize)) } else { None },
        }
    }
}

fn entry(c: Command, k: usize) -> (r: (State, Option<u8>))
    requires
        k < 13,
    ensures
        r == table_entry(c, k as int),
{
    if k == 0 {
        (State::Init, None)
    } else if k == 1 {
        (State::Flag, Some(0x81u8))
    } else if k == 2 {
        (State::CardId1, Some(match c {
            Command::Read => 0x52u8,
            Command::Write => 0x57u8,
            Command::GetId => 0x53u8,
        }))
    } else if k == 3 {
        (State::CardId2, Some(0x00u8))
    } else {
        match c {
            Command::Read => if k == 4 {
                (State::SendMsb, Some(0x00u8))
            } else if k == 5 {
                (State::SendLsb, None)
            } else if k == 6 {
                (State::CmdAck1, None)
            } else if k == 7 {
                (State::CmdAck2, Some(0x00u8))
            } else if k == 8 {
                (State::AckMsb, Some(0x00u8))
            } else if k == 9 {
                (State::AckLsb, Some(0x00u8))
            } else if k == 10 {
                (State::RecvSector, Some(0x00u8))
            } else if k == 11 {
                (State::RecvChecksum, Some(0x00u8))
            } else {
                (State::MemEnd, Some(0x00u8))
            },
            Command::Write => if k == 4 {
                (State::SendMsb, Some(0x00u8))
            } else if k == 5 {
                (State::SendLsb, None)
            } else if k == 6 {
                (State::SendSector, None)
            } else if k == 7 {
                (State::SendChecksum, None)
            } else if k == 8 {
                (State::CmdAck1, None)
            } else if k == 9 {
                (State::CmdAck2, Some(0x00u8))
            } else {
                (State::MemEnd, Some(0x00u8))
            },
            Command::GetId => if k == 4 {
                (State::CmdAck1, Some(0x00u8))
            } else if k == 5 {
                (State::CmdAck2, Some(0x00u8))
            } else if k == 6 {
                (State::Recv04h, Some(0x00u8))
            } else if k == 7 || k == 8 {
                (State::Recv00h, Some(0x00u8))
            } else {
                (State::Recv80h, Some(0x00u8))
            },
        }
    }
}

impl Command {
    /// Moves to the next step of the exchange on byte `recv`: in the flag
    /// state the byte first selects the command (the selection stays even
    /// when the step then fails).
    pub fn next(&mut self, current: State, recv: u8, state_idx: usize) -> (r: Option<(State, usize)>)
        requires
            state_idx < 13,
        ensures
            r == command_next(*old(self), current, recv, state_idx as int),
            *final(self) == (if current == State::Flag && recv != 0x52 && recv != 0x57 && recv != 0x53 {
                *old(self)
            } else {
                command_after(*old(self), current, recv)
            }),
            r matches Some(p) ==> p.1 < table_len(*final(self)),
    {
        if current == State::Flag {
            if recv == 0x52 {
                *self = Command::Read;
            } else if recv == 0x57 {
                *self = Command::Write;
            } else if recv == 0x53 {
                *self = Command::GetId;
            } else {
                return None;
            }
        }
        let len: usize = match *self {
            Command::Read => 13,
            Command::Write => 11,
            Command::GetId => 10,
        };
        let next_idx = (state_idx + 1) % len;
        let (next_state, check_byte) = entry(*self, next_idx);
        match check_byte {
            None => Some((next_state, next_idx)),
            Some(b) => if b == recv { Some((next_state, next_idx)) } else { None },
        }
    }
}

pub struct MemoryCard {
    pub in_ack: bool,
    pub state: State,
    pub command: Command,
    pub state_idx: usize,
    pub sector_number: u16,
    pub checksum: u8,
    pub sector: [u8; 128],
    pub bytes_left: usize,
    pub end_response: EndResponse,
    pub directory_not_read: bool,
    /// The card's contents.
    pub format: Vec<u8>,
}

impl MemoryCard {
    /// The card holds 1024 sectors, and the step index names the current
    /// state in the command's table.
    pub open spec fn wf_base(&self) -> bool {
        &&& self.format@.len() == CARD_SIZE
        &&& self.state_idx < table_len(self.command)
        &&& table_entry(self.command, self.state_idx as int).0 == self.state
    }

    /// Besides, a sector transfer has between 1 and 128 bytes left.
    pub open spec fn wf(&self) -> bool {
        &&& self.wf_base()
        &&& (self.state == State::RecvSector || self.state == State::SendSector) ==> 1 <= self.bytes_left <= 128
    }

    /// The byte the card answers in its current state, for the states whose
    /// answer is fixed by the state alone.
    pub open spec fn plain_reply(&self) -> u8 {
        match self.state {
            State::Init => 0xFF,
            State::CardId1 => 0x5A,
            State::CardId2 => 0x5D,
            State::CmdAck1 => 0x5C,
            State::CmdAck2 => 0x5D,
            State::Recv04h => 0x04,
            State::Recv00h => 0x00,
            State::Recv80h => 0x80,
            State::AckMsb => (self.sector_number / 0x100) as u8,
            State::AckLsb => (self.sector_number % 0x100) as u8,
            State::Flag => if self.directory_not_read { 0x08 } else { 0x00 },
            State::RecvChecksum => self.checksum,
            _ => 0,
        }
    }

    /// `after` is this card once it has taken the host's byte `data` in its
    /// current state, answering `r`, before moving to the next step; `early`
    /// tells that a sector transfer has bytes left and the step stays.
    pub open spec fn acted(&self, data: u8, after: &Self, r: u8, early: bool) -> bool {
        match self.state {
            State::SendMsb => {
                &&& r == 0
                &&& !early
                &&& *after == (MemoryCard { sector_number: (data * 0x100) as u16, checksum: data, ..*self })
            },
            State::SendLsb => {
                let s = self.sector_number | (data as u16);
                &&& r == 0
                &&& !early
                &&& *after == (MemoryCard {
                    sector_number: if s > 0x3FF { 0xFFFF } else { s },
                    checksum: self.checksum ^ data,
                    end_response: if s > 0x3FF { EndResponse::BadSector } else { self.end_response },
                    ..*self
                })
            },
            State::RecvSector => {
                let byte = self.sector@[128 - self.bytes_left];
                &&& r == byte
                &&& early == (self.bytes_left > 1)
                &&& *after == (MemoryCard {
                    bytes_left: (self.bytes_left - 1) as usize,
                    checksum: self.checksum ^ byte,
                    ..*self
                })
            },
            State::SendSector => {
                &&& r == 0
                &&& early == (self.bytes_left > 1)
                &&& after.sector@ == self.sector@.update(128 - self.bytes_left, data)
                &&& *after == (MemoryCard {
                    bytes_left: (self.bytes_left - 1) as usize,
                    checksum: self.checksum ^ data,
                    sector: after.sector,
                    ..*self
                })
            },
            State::SendChecksum => {
                &&& r == 0
                &&& !early
                &&& *after == (MemoryCard {
                    end_response: if self.checksum == data { EndResponse::Good } else { EndResponse::BadChecksum },
                    ..*self
                })
            },
            State::MemEnd => {
                &&& r == end_code(self.end_response)
                &&& !early
                &&& if self.command == Command::Write {
                    &&& (after.format@ == if self.end_response == EndResponse::Good {
                        self.saved_format()
                    } else {
                        self.format@
                    })
                    &&& *after == (MemoryCard { directory_not_read: false, format: after.format, ..*self })
                } else {
                    *after == *self
                }
            },
            _ => {
                &&& r == self.plain_reply()
                &&& !early
                &&& *after == *self
            },
        }
    }

    /// The card's contents with the sector buffer stored at the current
    /// sector.
    pub open spec fn saved_format(&self) -> Seq<u8> {
        let a = self.sector_number * FRAME_SIZE;
        Seq::new(
            self.format@.len(),
            |i: int| if a <= i < a + 128 { self.sector@[i - a] } else { self.format@[i] },
        )
    }

    /// `after` is this card (after its action) once it has moved on with the
    /// host's byte `data`, answering `r` where it had answered `send`.
    pub open spec fn advanced(&self, data: u8, send: u8, after: &Self, r: u8) -> bool {
        let cmd = if self.state == State::Flag && data != 0x52 && data != 0x57 && data != 0x53 {
            self.command
        } else {
            command_after(self.command, self.state, data)
        };
        match command_next(self.command, self.state, data, self.state_idx as int) {
            Some(p) => {
                let ns = p.0;
                &&& r == send
                &&& (ns == State::RecvSector ==> after.sector@ == self.format@.subrange(
                    self.sector_number * FRAME_SIZE,
                    self.sector_number * FRAME_SIZE + 128,
                ))
                &&& *after == (MemoryCard {
                    command: cmd,
                    state: ns,
                    state_idx: p.1,
                    in_ack: ns != State::Init,
                    bytes_left: if ns == State::RecvSector || ns == State::SendSector {
                        128
                    } else {
                        self.bytes_left
                    },
                    sector: if ns == State::RecvSector { after.sector } else { self.sector },
                    ..*self
                })
            },
            None => {
                &&& r == 0xFF
                &&& *after == (MemoryCard {
                    command: cmd,
                    state: State::Init,
                    state_idx: 0,
                    in_ack: false,
                    ..*self
                })
            },
        }
    }

    /// `after` is this card once it has exchanged byte `data` with the host,
    /// answering `r`.
    pub open spec fn exchanged(&self, data: u8, after: &Self, r: u8) -> bool {
        exists|mid: MemoryCard, send: u8, early: bool|
            #[trigger] self.acted(data, &mid, send, early) && (if early {
                *after == mid && r == send
            } else {
                mid.advanced(data, send, after, r)
            })
    }

    /// Whether the host's byte `data` can be taken without reaching past
    /// the end of the card: a write ending well stores a valid sector, and a
    /// read only starts its transfer from a valid sector.
    pub open spec fn step_ok(&self, data: u8) -> bool {
        &&& (self.state == State::MemEnd && self.command == Command::Write && self.end_response
            == EndResponse::Good) ==> self.sector_number <= 0x3FF
        &&& (command_next(self.command, self.state, data, self.state_idx as int) matches Some(p) && p.0
            == State::RecvSector) ==> self.sector_number <= 0x3FF
    }

    /// Whether the card can take byte `data` in its current step.
    pub fn step_allowed(&self, data: u8) -> (r: bool)
        requires
            self.wf(),
        ensures
            r == self.step_ok(data),
    {
        if self.state == State::MemEnd && self.command == Command::Write && self.end_response == EndResponse::Good
            && self.sector_number > 0x3FF {
            return false;
        }
        let mut c = self.command;
        match c.next(self.state, data, self.state_idx) {
            Some(p) => p.0 != State::RecvSector || self.sector_number <= 0x3FF,
            None => true,
        }
    }

    /// A card holding `image`, with no exchange going on.
    pub fn new(image: Vec<u8>) -> (c: Self)
        requires
            image@.len() == CARD_SIZE,
        ensures
            c.wf(),
            c.format@ == image@,
            c.state == State::Init,
            c.command == Command::Read,
            c.directory_not_read,
            c.end_response == EndResponse::Good,
            !c.in_ack,
    {
        MemoryCard {
            in_ack: false,
            state: State::Init,
            command: Command::Read,
            state_idx: 0,
            sector_number: 0,
            checksum: 0,
            sector: [0; 128],
            bytes_left: 0,
            end_response: EndResponse::Good,
            directory_not_read: true,
            format: image,
        }
    }

    fn act(&mut self, data: u8) -> (r: (u8, bool))
        requires
            old(self).wf(),
            old(self).state == State::MemEnd && old(self).command == Command::Write && old(self).end_response
                == EndResponse::Good ==> old(self).sector_number <= 0x3FF,
        ensures
            final(self).wf_base(),
            r.1 ==> final(self).wf(),
            old(self).acted(data, &*final(self), r.0, r.1),
    {
        match self.state {
            State::Init => (0xFF, false),
            State::CardId1 => (0x5A, false),
            State::CardId2 => (0x5D, false),
            State::CmdAck1 => (0x5C, false),
            State::CmdAck2 => (0x5D, false),
            State::Recv04h => (0x04, false),
            State::Recv00h => (0x00, false),
            State::Recv80h => (0x80, false),
            State::AckMsb => ((self.sector_number / 0x100) as u8, false),
            State::AckLsb => ((self.sector_number % 0x100) as u8, false),
            State::Flag => (if self.directory_not_read { 0x08 } else { 0x00 }, false),
            State::SendMsb => {
                self.sector_number = (data as u16) * 0x100;
                self.checksum = data;
                (0x00, false)
            },
            State::SendLsb => {
                self.sector_number = self.sector_number | (data as u16);
                self.checksum = self.checksum ^ data;
                if self.sector_number > 0x3FF {
                    self.sector_number = 0xFFFF;
                    self.end_response = EndResponse::BadSector;
                }
                (0x00, false)
            },
            State::RecvSector => {
                let byte = self.sector[128 - self.bytes_left];
                self.bytes_left = self.bytes_left - 1;
                self.checksum = self.checksum ^ byte;
                (byte, self.bytes_left > 0)
            },
            State::SendSector => {
                self.sector[128 - self.bytes_left] = data;
                self.bytes_left = self.bytes_left - 1;
                self.checksum = self.checksum ^ data;
                (0, self.bytes_left > 0)
            },
            State::RecvChecksum => (self.checksum, false),
            State::SendChecksum => {
                self.end_response = if self.checksum == data {
                    EndResponse::Good
                } else {
                    EndResponse::BadChecksum
                };
                (0, false)
            },
            State::MemEnd => {
                if self.command == Command::Write {
                    if self.end_response == EndResponse::Good {
                        self.save_sector();
                    }
                    self.directory_not_read = false;
                }
                let code: u8 = match self.end_response {
                    EndResponse::Good => 0x47,
                    EndResponse::BadChecksum => 0x4E,
                    EndResponse::BadSector => 0xFF,
                };
                (code, false)
            },
        }
    }

    /// Exchanges one byte with the host: the card acts on it in its current
    /// state, then (unless a sector transfer has bytes left) moves to the
    /// next step of its command, or ends the exchange (answer FFh) when the
    /// byte is not the one expected.
    pub fn send_and_receive_byte(&mut self, data: u8) -> (r: u8)
        requires
            old(self).wf(),
            old(self).step_ok(data),
        ensures
            final(self).wf(),
            old(self).exchanged(data, &*final(self), r),
    {
        let (send, early) = self.act(data);
        let ghost mid = *self;
        if early {
            return send;
        }
        let cmd_before = self.command;
        match self.command.next(self.state, data, self.state_idx) {
            Some((next_state, next_idx)) => {
                if next_state == State::RecvSector {
                    self.load_sector();
                    self.bytes_left = 128;
                }
                if next_state == State::SendSector {
                    self.bytes_left = 128;
                }
                self.state = next_state;
                self.state_idx = next_idx;
                self.in_ack = next_state != State::Init;
                send
            },
            None => {
                self.reset();
                0xFF
            },
        }
    }

    /// Whether the card acknowledges the byte just exchanged.
    pub fn in_ack(&self) -> (r: bool)
        ensures
            r == self.in_ack,
    {
        self.in_ack
    }

    /// Ends any exchange.
    pub fn reset(&mut self)
        requires
            old(self).format@.len() == CARD_SIZE,
        ensures
            final(self).wf(),
            *final(self) == (MemoryCard { in_ack: false, state: State::Init, state_idx: 0, ..*old(self) }),
    {
        self.in_ack = false;
        self.state = State::Init;
        self.state_idx = 0;
    }

    /// Copies the current sector of the card into the sector buffer.
    pub fn load_sector(&mut self)
        requires
            old(self).format@.len() == CARD_SIZE,
            old(self).sector_number <= 0x3FF,
        ensures
            final(self).sector@ == old(self).format@.subrange(
                old(self).sector_number * FRAME_SIZE,
                old(self).sector_number * FRAME_SIZE + 128,
            ),
            *final(self) == (MemoryCard { sector: final(self).sector, ..*old(self) }),
    {
        let address = self.sector_number as usize * FRAME_SIZE;
        for i in 0..128usize
            invariant
                address == old(self).sector_number * FRAME_SIZE,
                address + 128 <= self.format@.len(),
                self.format@.len() == CARD_SIZE,
                forall|j: int| 0 <= j < i ==> #[trigger] self.sector@[j] == self.format@[address + j],
                *self == (MemoryCard { sector: self.sector, ..*old(self) }),
        {
            self.sector[i] = self.format[address + i];
        }
        proof {
            assert(self.sector@ =~= self.format@.subrange(address as int, address + 128));
        }
    }

    /// Stores the sector buffer at the current sector of the card.
    pub fn save_sector(&mut self)
        requires
            old(self).format@.len() == CARD_SIZE,
            old(self).sector_number <= 0x3FF,
        ensures
            final(self).format@.len() == CARD_SIZE,
            final(self).format@ == old(self).saved_format(),
            *final(self) == (MemoryCard { format: final(self).format, ..*old(self) }),
    {
        let address = self.sector_number as usize * FRAME_SIZE;
        for i in 0..128usize
            invariant
                address == old(self).sector_number * FRAME_SIZE,
                address + 128 <= CARD_SIZE,
                self.format@.len() == CARD_SIZE,
                forall|j: int|
                    0 <= j < CARD_SIZE ==> #[trigger] self.format@[j] == (if address <= j < address + i {
                        old(self).sector@[j - address]
                    } else {
                        old(self).format@[j]
                    }),
                *self == (MemoryCard { format: self.format, ..*old(self) }),
        {
            self.format.set(address + i, self.sector[i]);
        }
        proof {
            assert(self.format@ =~= old(self).saved_format());
        }
    }
}

} // verus!
