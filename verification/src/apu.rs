//! The audio register surface. Waveform generation belongs to the host's
//! sound collaborator; the core only latches the bytes written to
//! 0xFF10-0xFF3F so that collaborator can read them back.

use vstd::prelude::*;

use crate::io::Io;

verus! {

/// Bytes in the register window 0xFF10-0xFF3F.
pub const AUDIO_REGS: usize = 0x30;

/// The write-only audio register latch.
pub struct Apu {
    regs: Vec<u8>,
}

impl View for Apu {
    type V = Seq<u8>;

    closed spec fn view(&self) -> Seq<u8> {
        self.regs@
    }
}

/// Is `addr` one of the sound registers the bus forwards?
pub open spec fn audio_reg_ok(addr: usize) -> bool {
    (0xFF10 <= addr <= 0xFF14) || (0xFF16 <= addr <= 0xFF19) || (0xFF1A <= addr <= 0xFF1E) || (
    0xFF20 <= addr <= 0xFF26) || (0xFF30 <= addr <= 0xFF3F)
}

/// Power-on value of each latched register.
pub open spec fn audio_reset_byte(i: int) -> u8 {
    if i == 0x00 {
        0x80
    } else if i == 0x01 {
        0xBF
    } else if i == 0x02 {
        0xF3
    } else if i == 0x04 {
        0xBF
    } else if i == 0x06 {
        0x3F
    } else if i == 0x09 {
        0xBF
    } else if i == 0x0A {
        0x7F
    } else if i == 0x0B {
        0xFF
    } else if i == 0x0C {
        0x9F
    } else if i == 0x0D {
        0xBF
    } else if i == 0x10 {
        0xFF
    } else if i == 0x14 {
        0x77
    } else if i == 0x15 {
        0xF3
    } else if i == 0x16 {
        0xF1
    } else {
        0x00
    }
}

impl Apu {
    pub open spec fn wf(&self) -> bool {
        self@.len() == AUDIO_REGS
    }

    pub fn new() -> (r: Apu)
        ensures
            r.wf(),
            r@ == Seq::new(AUDIO_REGS as nat, |i: int| audio_reset_byte(i)),
    {
        let mut v: Vec<u8> = Vec::new();
        let mut i: usize = 0;
        while i < AUDIO_REGS
            invariant
                i <= AUDIO_REGS,
                v@.len() == i,
                forall|j: int| 0 <= j < i ==> v@[j] == audio_reset_byte(j),
            decreases AUDIO_REGS - i,
        {
            let b: u8 = if i == 0x00 {
                0x80
            } else if i == 0x01 {
                0xBF
            } else if i == 0x02 {
                0xF3
            } else if i == 0x04 {
                0xBF
            } else if i == 0x06 {
                0x3F
            } else if i == 0x09 {
                0xBF
            } else if i == 0x0A {
                0x7F
            } else if i == 0x0B {
                0xFF
            } else if i == 0x0C {
                0x9F
            } else if i == 0x0D {
                0xBF
            } else if i == 0x10 {
                0xFF
            } else if i == 0x14 {
                0x77
            } else if i == 0x15 {
                0xF3
            } else if i == 0x16 {
                0xF1
            } else {
                0x00
            };
            v.push(b);
            i += 1;
        }
        proof {
            assert(v@ =~= Seq::new(AUDIO_REGS as nat, |i: int| audio_reset_byte(i)));
        }
        Apu { regs: v }
    }
}

impl Io for Apu {
    open spec fn io_inv(&self) -> bool {
        self.wf()
    }

    open spec fn io_ok(&self, addr: usize) -> bool {
        0xFF10 <= addr < 0xFF10 + AUDIO_REGS
    }

    open spec fn io_read(&self, addr: usize) -> u8 {
        self@[addr - 0xFF10]
    }

    open spec fn io_write(&self, addr: usize, data: u8) -> Seq<u8> {
        self@.update(addr - 0xFF10, data)
    }

    fn read8(&self, addr: usize) -> u8 {
        self.regs[addr - 0xFF10]
    }

    fn write8(&mut self, addr: usize, data: u8) {
        self.regs.set(addr - 0xFF10, data);
    }
}

} // verus!
