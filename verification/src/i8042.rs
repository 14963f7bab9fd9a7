//! # Intel 8042 compatible PS/2 controller initialization
//!
//! The controller is driven through its data and status/command ports. Initialization is a fixed
//! conversation with the controller; this module decides each next port operation from the bytes
//! read so far, and the caller performs the port I/O.
use vstd::prelude::*;

verus! {

/// I/O port of the data register.
pub const DATA_PORT: u16 = 0x60;
/// I/O port of the status (read) and command (write) register.
pub const STATUS_PORT: u16 = 0x64;

/// Status bit: the output buffer holds a byte for the host.
pub const STATUS_OUTPUT_BUFFER: u8 = 1;
/// Status bit: the input buffer holds a byte for the controller.
pub const STATUS_INPUT_BUFFER: u8 = 2;

pub const CMD_DISABLE_KBD: u8 = 0xad;
pub const CMD_ENABLE_KBD: u8 = 0xae;
pub const CMD_DISABLE_MOUSE: u8 = 0xa7;
pub const CMD_ENABLE_MOUSE: u8 = 0xa8;
pub const CMD_READ_CCB: u8 = 0x20;
pub const CMD_WRITE_CCB: u8 = 0x60;
pub const CMD_WRITE_MOUSE: u8 = 0xd4;
pub const CMD_CONTROLLER_TEST: u8 = 0xaa;
pub const CONTROLLER_TEST_OK: u8 = 0x55;
pub const CMD_KBD_INTERFACE_TEST: u8 = 0xab;
pub const CMD_MOUSE_INTERFACE_TEST: u8 = 0xa9;
pub const INTERFACE_TEST_OK: u8 = 0x00;
pub const CMD_ACK: u8 = 0xfa;
pub const KBD_RESET: u8 = 0xff;
pub const KBD_ENABLE_SCANNING: u8 = 0xf4;
pub const KBD_DISABLE_SCANNING: u8 = 0xf5;
pub const MOUSE_ENABLE_REPORTING: u8 = 0xf4;
pub const MOUSE_DISABLE_REPORTING: u8 = 0xf5;

/// Controller configuration byte bits cleared during initialization: the keyboard and mouse
/// interrupts (bits 0 and 1) and scan code translation (bit 6).
pub const CCB_INIT_CLEAR: u8 = 0b0100_0011;
pub const CCB_KBD_INTERRUPT: u8 = 0b0000_0001;
pub const CCB_MOUSE_INTERRUPT: u8 = 0b0000_0010;

/// The ports of an initialized controller.
pub struct I8042 {
    pub data: u16,
    pub status: u16,
}

/// Which devices initialized successfully.
#[derive(Debug, Clone, Copy, PartialEq, Eq, Structural)]
pub struct Ps2Status {
    pub keyboard_ok: bool,
    pub mouse_ok: bool,
}

/// The next port operation of the initialization.
#[derive(Debug, Clone, Copy, PartialEq, Eq)]
pub enum I8042Action {
    /// Wait for the input buffer to empty, then write the byte to the command port.
    Command(u8),
    /// Wait for the input buffer to empty, then write the byte to the data port.
    WriteData(u8),
    /// Wait for the output buffer to fill, then read the data port and hand the byte back.
    ReadData,
    /// Read and discard the data port for as long as the output buffer is full.
    Flush,
    /// Initialization is over: both devices work, or the status tells which failed.
    Done(Result<(), Ps2Status>),
}

/// The steps of the initialization conversation.
pub const STEP_DISABLE_KBD: u8 = 0;
pub const STEP_DISABLE_MOUSE: u8 = 1;
pub const STEP_FLUSH: u8 = 2;
pub const STEP_CONTROLLER_TEST: u8 = 3;
pub const STEP_READ_CONTROLLER_TEST: u8 = 4;
pub const STEP_READ_CCB: u8 = 5;
pub const STEP_READ_CCB_DATA: u8 = 6;
pub const STEP_WRITE_CCB: u8 = 7;
pub const STEP_WRITE_CCB_DATA: u8 = 8;
pub const STEP_KBD_TEST: u8 = 9;
pub const STEP_READ_KBD_TEST: u8 = 10;
pub const STEP_MOUSE_TEST: u8 = 11;
pub const STEP_READ_MOUSE_TEST: u8 = 12;
pub const STEP_ENABLE_KBD: u8 = 13;
pub const STEP_KBD_RESET: u8 = 14;
pub const STEP_READ_KBD_RESET: u8 = 15;
pub const STEP_KBD_SCAN: u8 = 16;
pub const STEP_READ_KBD_SCAN: u8 = 17;
pub const STEP_ENABLE_MOUSE: u8 = 18;
pub const STEP_MOUSE_PREFIX: u8 = 19;
pub const STEP_MOUSE_REPORTING: u8 = 20;
pub const STEP_READ_MOUSE_REPORTING: u8 = 21;
pub const STEP_READ_FINAL_CCB: u8 = 22;
pub const STEP_READ_FINAL_CCB_DATA: u8 = 23;
pub const STEP_WRITE_FINAL_CCB: u8 = 24;
pub const STEP_WRITE_FINAL_CCB_DATA: u8 = 25;
pub const STEP_DONE: u8 = 26;

/// The progress of an initialization: the step about to be performed, the configuration byte
/// to write, and the devices found working so far.
#[derive(Debug, Clone, Copy, PartialEq, Eq)]
pub struct I8042Init {
    pub step: u8,
    pub ccb: u8,
    pub status: Ps2Status,
}

/// The port operation of `s`.
pub open spec fn action_of(s: I8042Init) -> I8042Action {
    let st = s.step;
    if st == STEP_DISABLE_KBD { I8042Action::Command(CMD_DISABLE_KBD) }
    else if st == STEP_DISABLE_MOUSE { I8042Action::Command(CMD_DISABLE_MOUSE) }
    else if st == STEP_FLUSH { I8042Action::Flush }
    else if st == STEP_CONTROLLER_TEST { I8042Action::Command(CMD_CONTROLLER_TEST) }
    else if st == STEP_READ_CCB || st == STEP_READ_FINAL_CCB { I8042Action::Command(CMD_READ_CCB) }
    else if st == STEP_WRITE_CCB || st == STEP_WRITE_FINAL_CCB { I8042Action::Command(CMD_WRITE_CCB) }
    else if st == STEP_WRITE_CCB_DATA || st == STEP_WRITE_FINAL_CCB_DATA { I8042Action::WriteData(s.ccb) }
    else if st == STEP_KBD_TEST { I8042Action::Command(CMD_KBD_INTERFACE_TEST) }
    else if st == STEP_MOUSE_TEST { I8042Action::Command(CMD_MOUSE_INTERFACE_TEST) }
    else if st == STEP_ENABLE_KBD { I8042Action::Command(CMD_ENABLE_KBD) }
    else if st == STEP_KBD_RESET { I8042Action::WriteData(KBD_RESET) }
    else if st == STEP_KBD_SCAN { I8042Action::WriteData(KBD_ENABLE_SCANNING) }
    else if st == STEP_ENABLE_MOUSE { I8042Action::Command(CMD_ENABLE_MOUSE) }
    else if st == STEP_MOUSE_PREFIX { I8042Action::Command(CMD_WRITE_MOUSE) }
    else if st == STEP_MOUSE_REPORTING { I8042Action::WriteData(MOUSE_ENABLE_REPORTING) }
    else if st >= STEP_DONE {
        I8042Action::Done(
            if s.status.keyboard_ok && s.status.mouse_ok { Ok(()) } else { Err(s.status) },
        )
    } else {
        I8042Action::ReadData
    }
}

/// The state after step `s` is performed, `data` being the byte read where the step reads one.
pub open spec fn next_state(s: I8042Init, data: u8) -> I8042Init {
    let st = s.step;
    if st == STEP_READ_CONTROLLER_TEST && data != CONTROLLER_TEST_OK {
        I8042Init { step: STEP_DONE, ccb: s.ccb, status: Ps2Status { keyboard_ok: false, mouse_ok: false } }
    } else if st == STEP_READ_CCB_DATA {
        I8042Init { step: (st + 1) as u8, ccb: data & !CCB_INIT_CLEAR, status: s.status }
    } else if st == STEP_READ_KBD_RESET && data != CMD_ACK {
        I8042Init { step: STEP_ENABLE_MOUSE, ccb: s.ccb, status: s.status }
    } else if st == STEP_READ_KBD_SCAN {
        I8042Init { step: (st + 1) as u8, ccb: s.ccb, status: Ps2Status { keyboard_ok: data == CMD_ACK, mouse_ok: s.status.mouse_ok } }
    } else if st == STEP_READ_MOUSE_REPORTING {
        I8042Init { step: (st + 1) as u8, ccb: s.ccb, status: Ps2Status { keyboard_ok: s.status.keyboard_ok, mouse_ok: data == CMD_ACK } }
    } else if st == STEP_READ_FINAL_CCB_DATA {
        I8042Init {
            step: (st + 1) as u8,
            ccb: data | (if s.status.keyboard_ok { CCB_KBD_INTERRUPT } else { 0 }) | (if s.status.mouse_ok { CCB_MOUSE_INTERRUPT } else { 0 }),
            status: s.status,
        }
    } else if st >= STEP_DONE {
        s
    } else {
        I8042Init { step: (st + 1) as u8, ccb: s.ccb, status: s.status }
    }
}

impl I8042Init {
    /// The start of an initialization, with no device found working yet.
    pub fn start() -> (r: Self)
        ensures
            r.step == STEP_DISABLE_KBD,
            r.ccb == 0,
            r.status == (Ps2Status { keyboard_ok: false, mouse_ok: false }),
    {
        I8042Init { step: STEP_DISABLE_KBD, ccb: 0, status: Ps2Status { keyboard_ok: false, mouse_ok: false } }
    }

    /// The port operation to perform now.
    pub fn action(&self) -> (r: I8042Action)
        ensures
            r == action_of(*self),
            r matches I8042Action::Done(res) ==> (res is Ok <==> self.status.keyboard_ok && self.status.mouse_ok),
    {
        let st = self.step;
        if st == STEP_DISABLE_KBD { I8042Action::Command(CMD_DISABLE_KBD) }
        else if st == STEP_DISABLE_MOUSE { I8042Action::Command(CMD_DISABLE_MOUSE) }
        else if st == STEP_FLUSH { I8042Action::Flush }
        else if st == STEP_CONTROLLER_TEST { I8042Action::Command(CMD_CONTROLLER_TEST) }
        else if st == STEP_READ_CCB || st == STEP_READ_FINAL_CCB { I8042Action::Command(CMD_READ_CCB) }
        else if st == STEP_WRITE_CCB || st == STEP_WRITE_FINAL_CCB { I8042Action::Command(CMD_WRITE_CCB) }
        else if st == STEP_WRITE_CCB_DATA || st == STEP_WRITE_FINAL_CCB_DATA { I8042Action::WriteData(self.ccb) }
        else if st == STEP_KBD_TEST { I8042Action::Command(CMD_KBD_INTERFACE_TEST) }
        else if st == STEP_MOUSE_TEST { I8042Action::Command(CMD_MOUSE_INTERFACE_TEST) }
        else if st == STEP_ENABLE_KBD { I8042Action::Command(CMD_ENABLE_KBD) }
        else if st == STEP_KBD_RESET { I8042Action::WriteData(KBD_RESET) }
        else if st == STEP_KBD_SCAN { I8042Action::WriteData(KBD_ENABLE_SCANNING) }
        else if st == STEP_ENABLE_MOUSE { I8042Action::Command(CMD_ENABLE_MOUSE) }
        else if st == STEP_MOUSE_PREFIX { I8042Action::Command(CMD_WRITE_MOUSE) }
        else if st == STEP_MOUSE_REPORTING { I8042Action::WriteData(MOUSE_ENABLE_REPORTING) }
        else if st >= STEP_DONE {
            if self.status.keyboard_ok && self.status.mouse_ok {
                I8042Action::Done(Ok(()))
            } else {
                I8042Action::Done(Err(self.status))
            }
        } else {
            I8042Action::ReadData
        }
    }

    /// Moves past the current step; `data` is the byte read if the step was a read.
    pub fn advance(&mut self, data: u8)
        ensures
            *final(self) == next_state(*old(self), data),
    {
        let st = self.step;
        if st == STEP_READ_CONTROLLER_TEST && data != CONTROLLER_TEST_OK {
            self.step = STEP_DONE;
            self.status = Ps2Status { keyboard_ok: false, mouse_ok: false };
        } else if st == STEP_READ_CCB_DATA {
            self.ccb = data & !CCB_INIT_CLEAR;
            self.step = st + 1;
        } else if st == STEP_READ_KBD_RESET && data != CMD_ACK {
            self.step = STEP_ENABLE_MOUSE;
        } else if st == STEP_READ_KBD_SCAN {
            self.status.keyboard_ok = data == CMD_ACK;
            self.step = st + 1;
        } else if st == STEP_READ_MOUSE_REPORTING {
            self.status.mouse_ok = data == CMD_ACK;
            self.step = st + 1;
        } else if st == STEP_READ_FINAL_CCB_DATA {
            let kbd = if self.status.keyboard_ok { CCB_KBD_INTERRUPT } else { 0 };
            let mouse = if self.status.mouse_ok { CCB_MOUSE_INTERRUPT } else { 0 };
            self.ccb = data | kbd | mouse;
            self.step = st + 1;
        } else if st < STEP_DONE {
            self.step = st + 1;
        }
    }
}

/// The configuration byte written back first has the device interrupts and translation disabled.
pub proof fn lemma_initial_ccb_disables_interrupts(s: I8042Init, data: u8)
    requires
        s.step == STEP_READ_CCB_DATA,
    ensures
        next_state(s, data).ccb & CCB_INIT_CLEAR == 0,
        action_of(next_state(next_state(s, data), 0)) == I8042Action::WriteData(next_state(s, data).ccb),
{
    let c = data & !CCB_INIT_CLEAR;
    assert(c & 0x43u8 == 0) by (bit_vector)
        requires
            c == data & !0x43u8,
    ;
}

/// The configuration byte written back last enables the interrupt of each device that works and
/// keeps the other bits read from the controller.
pub proof fn lemma_final_ccb(s: I8042Init, data: u8)
    requires
        s.step == STEP_READ_FINAL_CCB_DATA,
    ensures
        ({
            let c = next_state(s, data).ccb;
            &&& (c & CCB_KBD_INTERRUPT != 0) == (s.status.keyboard_ok || data & CCB_KBD_INTERRUPT != 0)
            &&& (c & CCB_MOUSE_INTERRUPT != 0) == (s.status.mouse_ok || data & CCB_MOUSE_INTERRUPT != 0)
            &&& c & !0b11u8 == data & !0b11u8
        }),
{
    let k: u8 = if s.status.keyboard_ok { 1 } else { 0 };
    let m: u8 = if s.status.mouse_ok { 2 } else { 0 };
    let c = data | k | m;
    assert((c & 1u8 != 0) == (k == 1u8 || data & 1u8 != 0) && (c & 2u8 != 0) == (m == 2u8 || data & 2u8 != 0)
        && c & !3u8 == data & !3u8) by (bit_vector)
        requires
            c == data | k | m,
            k == 0u8 || k == 1u8,
            m == 0u8 || m == 2u8,
    ;
}

/// The keyboard counts as working only after acknowledging both the reset and the enabling of
/// scanning, and the mouse only after acknowledging the enabling of reporting.
pub proof fn lemma_devices_ok_only_on_ack(s: I8042Init, data: u8)
    ensures
        next_state(s, data).status.keyboard_ok && !s.status.keyboard_ok ==> s.step == STEP_READ_KBD_SCAN && data == CMD_ACK,
        next_state(s, data).status.mouse_ok && !s.status.mouse_ok ==> s.step == STEP_READ_MOUSE_REPORTING && data == CMD_ACK,
        s.step == STEP_READ_KBD_RESET && data != CMD_ACK ==> next_state(s, data).step == STEP_ENABLE_MOUSE
            && !next_state(s, data).status.keyboard_ok == !s.status.keyboard_ok,
{
}

/// The conversation always ends: every step before the last moves forward and never past the end,
/// and the end is final. From the start it takes at most `STEP_DONE` steps.
pub proof fn lemma_initialization_progresses(s: I8042Init, data: u8)
    ensures
        s.step < STEP_DONE ==> s.step < next_state(s, data).step <= STEP_DONE,
        s.step >= STEP_DONE ==> next_state(s, data) == s,
{
}

/// Whether a device acknowledged a command.
pub fn command_acknowledged(response: u8) -> (r: bool)
    ensures
        r == (response == CMD_ACK),
{
    response == CMD_ACK
}


/// The conversation, step by step, in the bytes the controller and devices understand: disable
/// both ports (0xad, 0xa7), flush, self-test the controller (0xaa), read the configuration byte
/// (0x20), write it back (0x60), test both interfaces (0xab, 0xa9), enable the keyboard port
/// (0xae), reset the keyboard (0xff) and enable its scanning (0xf4), enable the mouse port (0xa8),
/// send the mouse (0xd4) the enabling of reporting (0xf4), then read and write the final
/// configuration byte; every other step up to the end reads a response.
pub proof fn lemma_conversation_steps(s: I8042Init)
    ensures
        s.step == 0 ==> action_of(s) == I8042Action::Command(0xad),
        s.step == 1 ==> action_of(s) == I8042Action::Command(0xa7),
        s.step == 2 ==> action_of(s) == I8042Action::Flush,
        s.step == 3 ==> action_of(s) == I8042Action::Command(0xaa),
        s.step == 4 ==> action_of(s) == I8042Action::ReadData,
        s.step == 5 ==> action_of(s) == I8042Action::Command(0x20),
        s.step == 6 ==> action_of(s) == I8042Action::ReadData,
        s.step == 7 ==> action_of(s) == I8042Action::Command(0x60),
        s.step == 8 ==> action_of(s) == I8042Action::WriteData(s.ccb),
        s.step == 9 ==> action_of(s) == I8042Action::Command(0xab),
        s.step == 10 ==> action_of(s) == I8042Action::ReadData,
        s.step == 11 ==> action_of(s) == I8042Action::Command(0xa9),
        s.step == 12 ==> action_of(s) == I8042Action::ReadData,
        s.step == 13 ==> action_of(s) == I8042Action::Command(0xae),
        s.step == 14 ==> action_of(s) == I8042Action::WriteData(0xff),
        s.step == 15 ==> action_of(s) == I8042Action::ReadData,
        s.step == 16 ==> action_of(s) == I8042Action::WriteData(0xf4),
        s.step == 17 ==> action_of(s) == I8042Action::ReadData,
        s.step == 18 ==> action_of(s) == I8042Action::Command(0xa8),
        s.step == 19 ==> action_of(s) == I8042Action::Command(0xd4),
        s.step == 20 ==> action_of(s) == I8042Action::WriteData(0xf4),
        s.step == 21 ==> action_of(s) == I8042Action::ReadData,
        s.step == 22 ==> action_of(s) == I8042Action::Command(0x20),
        s.step == 23 ==> action_of(s) == I8042Action::ReadData,
        s.step == 24 ==> action_of(s) == I8042Action::Command(0x60),
        s.step == 25 ==> action_of(s) == I8042Action::WriteData(s.ccb),
        s.step >= 26 ==> action_of(s) == I8042Action::Done(
            if s.status.keyboard_ok && s.status.mouse_ok { Ok(()) } else { Err(s.status) },
        ),
{
}

/// The conversation goes through its steps in order: each step is followed by the next one, except
/// that a failed controller self-test (a response other than 0x55) ends it and a keyboard that
/// does not acknowledge its reset (0xfa) is skipped up to the enabling of the mouse port.
pub proof fn lemma_conversation_order(s: I8042Init, data: u8)
    requires
        s.step < 26,
    ensures
        s.step == 4 && data != 0x55 ==> next_state(s, data).step == 26,
        s.step == 15 && data != 0xfa ==> next_state(s, data).step == 18,
        !(s.step == 4 && data != 0x55) && !(s.step == 15 && data != 0xfa) ==> next_state(s, data).step == s.step + 1,
{
}

} // verus!
