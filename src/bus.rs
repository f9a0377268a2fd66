use vstd::prelude::*;

use crate::cartridge::{Cartridge, prg_read, prg_write};
use crate::controller::Controller;
use crate::error::NesError;
use crate::vram::{Vram, VramView};

verus! {

/// The size of the console's internal RAM, mirrored over 0x0000-0x1FFF.
pub const RAM_SIZE: usize = 0x800;

/// What the bus holds.
pub struct BusView {
    pub cycles: u64,
    pub stall_cycles: u8,
    pub controller_0: Controller,
    pub controller_1: Controller,
    pub ram: Seq<u8>,
    pub vram: VramView,
}

impl BusView {
    pub open spec fn wf(self) -> bool {
        &&& self.ram.len() == RAM_SIZE
        &&& self.vram.wf()
    }

    /// What a CPU read of `address` returns, and the bus after it. Reading a
    /// controller port shifts that controller; other reads change nothing.
    #[verifier::opaque]
    pub open spec fn read(self, address: u16) -> (Result<u8, NesError>, BusView) {
        if address <= 0x1FFF {
            (Ok(self.ram[(address % 0x800) as int]), self)
        } else if address == 0x4016 {
            (
                Ok(self.controller_0.read_value()),
                BusView { controller_0: self.controller_0.after_read(), ..self },
            )
        } else if address == 0x4017 {
            (
                Ok(self.controller_1.read_value()),
                BusView { controller_1: self.controller_1.after_read(), ..self },
            )
        } else if address <= 0x5FFF {
            (Ok(0), self)
        } else {
            match self.vram.cartridge {
                Some(c) => (prg_read(c, address), self),
                None => (Err(NesError::NoCartridge), self),
            }
        }
    }

    /// The outcome of a CPU write of `value` to `address`, and the bus after it.
    #[verifier::opaque]
    pub open spec fn write(self, address: u16, value: u8) -> (Result<(), NesError>, BusView) {
        if address <= 0x1FFF {
            (Ok(()), BusView { ram: self.ram.update((address % 0x800) as int, value), ..self })
        } else if address == 0x4016 {
            (
                Ok(()),
                BusView {
                    controller_0: self.controller_0.after_write(value),
                    controller_1: self.controller_1.after_write(value),
                    ..self
                },
            )
        } else if address <= 0x5FFF {
            (Ok(()), self)
        } else {
            match self.vram.cartridge {
                Some(c) => {
                    let (r, c2) = prg_write(c, address, value);
                    (r, BusView { vram: VramView { cartridge: Some(c2), ..self.vram }, ..self })
                },
                None => (Err(NesError::NoCartridge), self),
            }
        }
    }

    /// The bus after one CPU cycle.
    pub open spec fn ticked(self) -> BusView {
        BusView {
            cycles: if self.cycles == u64::MAX {
                0
            } else {
                (self.cycles + 1) as u64
            },
            ..self
        }
    }
}

/// The shared bus: the cycle counter, the console's RAM, the controllers, and
/// video memory with the cartridge. Addresses 0x2000-0x3FFF (the picture
/// processor's registers) and 0x4000-0x5FFF (audio and expansion) belong to
/// components outside this core: reads there give 0 and writes are ignored,
/// except for the controller ports 0x4016 and 0x4017.
pub struct SystemBus {
    pub cycles: u64,
    pub stall_cycles: u8,
    pub controller_0: Controller,
    pub controller_1: Controller,
    pub ram: Vec<u8>,
    pub vram: Vram,
}

impl View for SystemBus {
    type V = BusView;

    open spec fn view(&self) -> BusView {
        BusView {
            cycles: self.cycles,
            stall_cycles: self.stall_cycles,
            controller_0: self.controller_0,
            controller_1: self.controller_1,
            ram: self.ram@,
            vram: self.vram@,
        }
    }
}

fn zeroed_ram() -> (r: Vec<u8>)
    ensures
        r@ == Seq::new(RAM_SIZE as nat, |i: int| 0u8),
{
    let mut r: Vec<u8> = Vec::new();
    let mut i: usize = 0;
    while i < RAM_SIZE
        invariant
            i <= RAM_SIZE,
            r@ == Seq::new(i as nat, |k: int| 0u8),
        decreases RAM_SIZE - i,
    {
        r.push(0);
        i += 1;
    }
    r
}

impl SystemBus {
    pub fn new() -> (r: SystemBus)
        ensures
            r@.wf(),
            r@.cycles == 0,
            r@.stall_cycles == 0,
            r@.controller_0 == Controller::new_spec(),
            r@.controller_1 == Controller::new_spec(),
            r@.ram == Seq::new(RAM_SIZE as nat, |i: int| 0u8),
            r@.vram.cartridge is None,
    {
        SystemBus {
            cycles: 0,
            stall_cycles: 0,
            controller_0: Controller::new(),
            controller_1: Controller::new(),
            ram: zeroed_ram(),
            vram: Vram::new(),
        }
    }

    pub fn insert_cartridge(&mut self, cartridge: Cartridge)
        ensures
            final(self)@ == (BusView {
                vram: VramView { cartridge: Some(cartridge@), ..old(self)@.vram },
                ..old(self)@
            }),
    {
        self.vram.set_cartridge(cartridge);
    }

    /// Advances the cycle counter by one; it wraps only at the integer's bound.
    pub fn tick(&mut self)
        ensures
            final(self)@ == old(self)@.ticked(),
    {
        self.cycles = self.cycles.wrapping_add(1);
    }

    /// The interrupt request line: raised by the cartridge's mapper. None of
    /// the boards here raises it, and no other source is attached.
    pub fn irq(&self) -> (r: bool)
        ensures
            !r,
    {
        let cartridge_irq = match &self.vram.cartridge {
            Some(c) => c.irq_flag(),
            None => false,
        };
        cartridge_irq
    }

    /// Adds cycles that the CPU must wait out before its next fetch.
    pub fn stall(&mut self, cycles: u8)
        ensures
            final(self)@ == (BusView {
                stall_cycles: if old(self).stall_cycles + cycles > 255 {
                    255
                } else {
                    (old(self).stall_cycles + cycles) as u8
                },
                ..old(self)@
            }),
    {
        self.stall_cycles = self.stall_cycles.saturating_add(cycles);
    }

    pub fn read(&mut self, address: u16) -> (r: Result<u8, NesError>)
        requires
            old(self)@.wf(),
        ensures
            (r, final(self)@) == old(self)@.read(address),
            final(self)@.wf(),
    {
        reveal(BusView::read);
        if address <= 0x1FFF {
            Ok(self.ram[(address as usize) % RAM_SIZE])
        } else if address == 0x4016 {
            Ok(self.controller_0.read_register())
        } else if address == 0x4017 {
            Ok(self.controller_1.read_register())
        } else if address <= 0x5FFF {
            Ok(0)
        } else {
            match &self.vram.cartridge {
                Some(c) => c.read_prg_byte(address),
                None => Err(NesError::NoCartridge),
            }
        }
    }

    pub fn write(&mut self, address: u16, value: u8) -> (r: Result<(), NesError>)
        requires
            old(self)@.wf(),
        ensures
            (r, final(self)@) == old(self)@.write(address, value),
            final(self)@.wf(),
    {
        reveal(BusView::write);
        if address <= 0x1FFF {
            self.ram.set((address as usize) % RAM_SIZE, value);
            Ok(())
        } else if address == 0x4016 {
            self.controller_0.write_register(value);
            self.controller_1.write_register(value);
            Ok(())
        } else if address <= 0x5FFF {
            Ok(())
        } else {
            match &mut self.vram.cartridge {
                Some(c) => c.write_prg_byte(address, value),
                None => Err(NesError::NoCartridge),
            }
        }
    }
}

} // verus!
