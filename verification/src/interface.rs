//! The memory-mapped peripheral protocol.
//!
//! Guest addresses 0 to 239 are plain memory. Addresses 240 to 255 are
//! peripheral registers: every guest load invokes the read trap before
//! the byte is consumed, every guest store invokes the write trap after
//! it commits. The traps rewrite the accessed cell for readable
//! peripheral registers and mutate the peripheral state for writable
//! ones; both are no-ops for plain addresses.
//!
//! The state is one owned handle per execution session, not process
//! globals, so repeated sessions cannot leak into one another; a data
//! value and its dirty flag live in the same handle and change in the
//! same call.

use vstd::prelude::*;
use crate::rng::rng_from_entropy;
use crate::rng::rng_next_byte;

verus! {

/// How the numeric display interprets its byte.
#[derive(Clone, Copy, Debug, PartialEq, Eq, Structural)]
pub enum NumberDisplaySettings {
    TwosCompliment,
    Unsigned,
}

/// The controller input bits, one bit per button.
#[derive(Clone, Copy, Debug, PartialEq, Eq, Structural)]
pub struct ControllerInfo(pub u8);

impl Default for ControllerInfo {
    /// No button pressed.
    fn default() -> (r: Self)
        ensures
            r.0 == 0,
    {
        ControllerInfo(0)
    }
}

/// What the peripheral protocol and its consumers observe of the
/// state: the working and committed pixel buffers (32 by 32, row
/// major), the character staging buffer and display, the numeric
/// display, and the controller byte.
#[verifier::ext_equal]
pub struct PeripheralsView {
    pub pixels: Seq<bool>,
    pub screen: Seq<bool>,
    pub screen_dirty: bool,
    pub chars: Seq<u8>,
    pub char_display: Seq<u8>,
    pub char_display_dirty: bool,
    pub number: u8,
    pub number_dirty: bool,
    pub show_number: bool,
    pub settings: NumberDisplaySettings,
    pub controller: u8,
}

/// The peripheral state of one execution session.
pub struct Peripherals {
    rng: rand::rngs::StdRng,
    pixels: Vec<bool>,
    screen: Vec<bool>,
    screen_dirty: bool,
    char_buffer: Vec<u8>,
    char_display: Vec<u8>,
    char_display_dirty: bool,
    number_display: u8,
    number_display_dirty: bool,
    show_number_display: bool,
    number_display_settings: NumberDisplaySettings,
    controller_info: ControllerInfo,
}

impl View for Peripherals {
    type V = PeripheralsView;

    closed spec fn view(&self) -> PeripheralsView {
        PeripheralsView {
            pixels: self.pixels@,
            screen: self.screen@,
            screen_dirty: self.screen_dirty,
            chars: self.char_buffer@,
            char_display: self.char_display@,
            char_display_dirty: self.char_display_dirty,
            number: self.number_display,
            number_dirty: self.number_display_dirty,
            show_number: self.show_number_display,
            settings: self.number_display_settings,
            controller: self.controller_info.0,
        }
    }
}

/// The capacity of the character staging buffer and display.
pub open spec fn char_buffer_capacity() -> nat {
    20
}

/// The state every session starts in: buffers clear, displays empty,
/// hidden and clean, two's-complement interpretation, no input.
pub open spec fn initial_peripherals() -> PeripheralsView {
    PeripheralsView {
        pixels: Seq::new(1024, |i: int| false),
        screen: Seq::new(1024, |i: int| false),
        screen_dirty: false,
        chars: Seq::<u8>::empty(),
        char_display: Seq::<u8>::empty(),
        char_display_dirty: false,
        number: 0,
        number_dirty: false,
        show_number: false,
        settings: NumberDisplaySettings::TwosCompliment,
        controller: 0,
    }
}

/// The x coordinate latched at address 240: only its low five bits
/// are significant.
pub open spec fn latched_x(mem: Seq<u8>) -> nat {
    mem[240] as nat % 32
}

/// The y coordinate latched at address 241: only its low five bits
/// are significant.
pub open spec fn latched_y(mem: Seq<u8>) -> nat {
    mem[241] as nat % 32
}

/// The row-major index of the latched pixel coordinate.
pub open spec fn pixel_index(mem: Seq<u8>) -> int {
    latched_y(mem) * 32 + latched_x(mem) as int
}

/// Reads the latched pixel coordinate from guest memory, masking each
/// byte to its low five bits.
fn get_pixel_coords(mem: &Vec<u8>) -> (r: (usize, usize))
    requires
        mem@.len() == 256,
    ensures
        r.0 == latched_x(mem@),
        r.1 == latched_y(mem@),
        r.0 < 32,
        r.1 < 32,
{
    let bx = mem[240];
    let by = mem[241];
    proof {
        assert(bx & 0x1f == bx % 32) by (bit_vector);
        assert(by & 0x1f == by % 32) by (bit_vector);
    }
    ((bx & 0x1f) as usize, (by & 0x1f) as usize)
}

impl Peripherals {
    /// Structural well-formedness: both pixel buffers are 32 by 32,
    /// and the character staging buffer and display respect the
    /// capacity bound.
    pub open spec fn wf(&self) -> bool {
        &&& self@.pixels.len() == 1024
        &&& self@.screen.len() == 1024
        &&& self@.chars.len() <= char_buffer_capacity()
        &&& self@.char_display.len() <= char_buffer_capacity()
    }

    /// Fresh peripheral state for one session, its generator seeded
    /// from system entropy.
    pub fn new() -> (r: Self)
        ensures
            r.wf(),
            r@ == initial_peripherals(),
    {
        let r = Peripherals {
            rng: rng_from_entropy(),
            pixels: vec![false; 1024],
            screen: vec![false; 1024],
            screen_dirty: false,
            char_buffer: Vec::new(),
            char_display: Vec::new(),
            char_display_dirty: false,
            number_display: 0,
            number_display_dirty: false,
            show_number_display: false,
            number_display_settings: NumberDisplaySettings::TwosCompliment,
            controller_info: ControllerInfo(0),
        };
        proof {
            assert(r@ =~= initial_peripherals());
        }
        r
    }
}

impl Peripherals {
    /// The committed screen pixel at column `x`, row `y`.
    pub fn screen_pixel(&self, x: usize, y: usize) -> (r: bool)
        requires
            self.wf(),
            x < 32,
            y < 32,
        ensures
            r == self@.screen[y * 32 + x],
    {
        self.screen[y * 32 + x]
    }

    /// Whether the committed screen changed since last consumed.
    pub fn screen_dirty(&self) -> (r: bool)
        ensures
            r == self@.screen_dirty,
    {
        self.screen_dirty
    }

    /// Consumes the screen dirty flag, poll-and-clear style.
    pub fn clear_screen_dirty(&mut self)
        requires
            old(self).wf(),
        ensures
            final(self).wf(),
            final(self)@ == (PeripheralsView { screen_dirty: false, ..old(self)@ }),
    {
        self.screen_dirty = false;
    }

    /// The character display as text: each stored byte as the
    /// character with that code.
    pub fn char_display_text(&self) -> (r: String)
        ensures
            r@.len() == self@.char_display.len(),
            forall|i: int| 0 <= i < r@.len() ==> r@[i] == self@.char_display[i] as char,
    {
        let mut out = String::new();
        let mut i: usize = 0;
        while i < self.char_display.len()
            invariant
                i <= self@.char_display.len(),
                out@.len() == i,
                forall|j: int| 0 <= j < i ==> out@[j] == self@.char_display[j] as char,
            decreases self@.char_display.len() - i,
        {
            out.push(self.char_display[i] as char);
            i += 1;
        }
        out
    }

    /// How many bytes the character staging buffer holds.
    pub fn char_buffer_len(&self) -> (r: usize)
        ensures
            r == self@.chars.len(),
    {
        self.char_buffer.len()
    }

    /// Whether the character display changed since last consumed.
    pub fn char_display_dirty(&self) -> (r: bool)
        ensures
            r == self@.char_display_dirty,
    {
        self.char_display_dirty
    }

    /// Consumes the character display dirty flag.
    pub fn clear_char_display_dirty(&mut self)
        requires
            old(self).wf(),
        ensures
            final(self).wf(),
            final(self)@ == (PeripheralsView { char_display_dirty: false, ..old(self)@ }),
    {
        self.char_display_dirty = false;
    }

    /// The numeric display's stored byte.
    pub fn number_display(&self) -> (r: u8)
        ensures
            r == self@.number,
    {
        self.number_display
    }

    /// Whether the numeric display is shown.
    pub fn show_number_display(&self) -> (r: bool)
        ensures
            r == self@.show_number,
    {
        self.show_number_display
    }

    /// How the numeric display interprets its byte.
    pub fn number_display_settings(&self) -> (r: NumberDisplaySettings)
        ensures
            r == self@.settings,
    {
        self.number_display_settings
    }

    /// Whether the numeric display changed since last consumed.
    pub fn number_display_dirty(&self) -> (r: bool)
        ensures
            r == self@.number_dirty,
    {
        self.number_display_dirty
    }

    /// Consumes the numeric display dirty flag.
    pub fn clear_number_display_dirty(&mut self)
        requires
            old(self).wf(),
        ensures
            final(self).wf(),
            final(self)@ == (PeripheralsView { number_dirty: false, ..old(self)@ }),
    {
        self.number_display_dirty = false;
    }

    /// Latches the controller input bits for the next read of address
    /// 255.
    pub fn set_controller_info(&mut self, info: ControllerInfo)
        requires
            old(self).wf(),
        ensures
            final(self).wf(),
            final(self)@ == (PeripheralsView { controller: info.0, ..old(self)@ }),
    {
        self.controller_info = info;
    }
}

/// The read trap: invoked on every guest load, before the instruction
/// consumes the byte, with the full guest memory and the accessed
/// address. It rewrites the accessed cell for the three readable
/// peripheral registers — 244 the latched pixel's state in the working
/// buffer, 254 a byte of the random stream, 255 the controller bits —
/// and leaves memory and state untouched for every other address.
pub fn on_mem_read(periph: &mut Peripherals, mem: &mut Vec<u8>, addr: usize)
    requires
        old(periph).wf(),
        old(mem)@.len() == 256,
        addr < 256,
    ensures
        final(periph).wf(),
        final(mem)@.len() == 256,
        addr == 244 ==> final(mem)@ == old(mem)@.update(
            244,
            if old(periph)@.pixels[pixel_index(old(mem)@)] {
                1u8
            } else {
                0u8
            },
        ) && final(periph)@ == old(periph)@,
        addr == 254 ==> (forall|i: int|
            0 <= i < 256 && i != 254 ==> final(mem)@[i] == old(mem)@[i]) && final(periph)@ == old(periph)@,
        addr == 255 ==> final(mem)@ == old(mem)@.update(255, old(periph)@.controller)
            && final(periph)@ == old(periph)@,
        addr != 244 && addr != 254 && addr != 255 ==> final(mem)@ == old(mem)@ && final(periph)@
            == old(periph)@,
{
    if addr == 244 {
        let (x, y) = get_pixel_coords(mem);
        let lit = periph.pixels[y * 32 + x];
        mem.set(244, if lit { 1 } else { 0 });
    } else if addr == 254 {
        let b = rng_next_byte(&mut periph.rng);
        mem.set(254, b);
        proof {
            assert(final(periph)@ =~= old(periph)@);
        }
    } else if addr == 255 {
        let b = periph.controller_info.0;
        mem.set(255, b);
    }
}

/// The write trap: invoked on every guest store, after it commits,
/// with the full guest memory and the stored address. Writable
/// peripheral registers mutate the state — a display datum and its
/// dirty flag change in the same call — and every other address is a
/// no-op. A store to 247 requires room in the staging buffer; the
/// buffer is bounded and an overflowing append does not return.
pub fn on_mem_write(periph: &mut Peripherals, mem: &Vec<u8>, addr: usize)
    requires
        old(periph).wf(),
        mem@.len() == 256,
        addr < 256,
        addr == 247 ==> old(periph)@.chars.len() < char_buffer_capacity(),
    ensures
        final(periph).wf(),
        addr == 242 ==> final(periph)@ == (PeripheralsView {
            pixels: old(periph)@.pixels.update(pixel_index(mem@), true),
            ..old(periph)@
        }),
        addr == 243 ==> final(periph)@ == (PeripheralsView {
            pixels: old(periph)@.pixels.update(pixel_index(mem@), false),
            ..old(periph)@
        }),
        addr == 245 ==> final(periph)@ == (PeripheralsView {
            screen: old(periph)@.pixels,
            screen_dirty: true,
            ..old(periph)@
        }),
        addr == 246 ==> final(periph)@ == (PeripheralsView {
            pixels: Seq::new(1024, |i: int| false),
            ..old(periph)@
        }),
        addr == 247 ==> final(periph)@ == (PeripheralsView {
            chars: old(periph)@.chars.push(mem@[247]),
            ..old(periph)@
        }),
        addr == 248 ==> final(periph)@ == (PeripheralsView {
            char_display: old(periph)@.chars,
            char_display_dirty: true,
            ..old(periph)@
        }),
        addr == 249 ==> final(periph)@ == (PeripheralsView {
            chars: Seq::<u8>::empty(),
            ..old(periph)@
        }),
        addr == 250 ==> final(periph)@ == (PeripheralsView {
            number: mem@[250],
            show_number: true,
            number_dirty: true,
            ..old(periph)@
        }),
        addr == 251 ==> final(periph)@ == (PeripheralsView {
            show_number: false,
            number_dirty: true,
            ..old(periph)@
        }),
        addr == 252 ==> final(periph)@ == (PeripheralsView {
            settings: NumberDisplaySettings::TwosCompliment,
            number_dirty: true,
            ..old(periph)@
        }),
        addr == 253 ==> final(periph)@ == (PeripheralsView {
            settings: NumberDisplaySettings::Unsigned,
            number_dirty: true,
            ..old(periph)@
        }),
        !(242 <= addr <= 253) ==> final(periph)@ == old(periph)@,
{
    if addr == 242 {
        let (x, y) = get_pixel_coords(mem);
        periph.pixels.set(y * 32 + x, true);
        proof {
            assert(final(periph)@ =~= (PeripheralsView {
                pixels: old(periph)@.pixels.update(pixel_index(mem@), true),
                ..old(periph)@
            }));
        }
    } else if addr == 243 {
        let (x, y) = get_pixel_coords(mem);
        periph.pixels.set(y * 32 + x, false);
        proof {
            assert(final(periph)@ =~= (PeripheralsView {
                pixels: old(periph)@.pixels.update(pixel_index(mem@), false),
                ..old(periph)@
            }));
        }
    } else if addr == 245 {
        periph.screen = periph.pixels.clone();
        periph.screen_dirty = true;
        proof {
            assert(final(periph)@ =~= (PeripheralsView {
                screen: old(periph)@.pixels,
                screen_dirty: true,
                ..old(periph)@
            }));
        }
    } else if addr == 246 {
        periph.pixels = vec![false; 1024];
        proof {
            assert(final(periph)@ =~= (PeripheralsView {
                pixels: Seq::new(1024, |i: int| false),
                ..old(periph)@
            }));
        }
    } else if addr == 247 {
        periph.char_buffer.push(mem[247]);
        proof {
            assert(final(periph)@ =~= (PeripheralsView {
                chars: old(periph)@.chars.push(mem@[247]),
                ..old(periph)@
            }));
        }
    } else if addr == 248 {
        periph.char_display = periph.char_buffer.clone();
        periph.char_display_dirty = true;
        proof {
            assert(final(periph)@ =~= (PeripheralsView {
                char_display: old(periph)@.chars,
                char_display_dirty: true,
                ..old(periph)@
            }));
        }
    } else if addr == 249 {
        periph.char_buffer = Vec::new();
        proof {
            assert(final(periph)@ =~= (PeripheralsView {
                chars: Seq::<u8>::empty(),
                ..old(periph)@
            }));
        }
    } else if addr == 250 {
        periph.number_display = mem[250];
        periph.show_number_display = true;
        periph.number_display_dirty = true;
        proof {
            assert(final(periph)@ =~= (PeripheralsView {
                number: mem@[250],
                show_number: true,
                number_dirty: true,
                ..old(periph)@
            }));
        }
    } else if addr == 251 {
        periph.show_number_display = false;
        periph.number_display_dirty = true;
        proof {
            assert(final(periph)@ =~= (PeripheralsView {
                show_number: false,
                number_dirty: true,
                ..old(periph)@
            }));
        }
    } else if addr == 252 {
        periph.number_display_settings = NumberDisplaySettings::TwosCompliment;
        periph.number_display_dirty = true;
        proof {
            assert(final(periph)@ =~= (PeripheralsView {
                settings: NumberDisplaySettings::TwosCompliment,
                number_dirty: true,
                ..old(periph)@
            }));
        }
    } else if addr == 253 {
        periph.number_display_settings = NumberDisplaySettings::Unsigned;
        periph.number_display_dirty = true;
        proof {
            assert(final(periph)@ =~= (PeripheralsView {
                settings: NumberDisplaySettings::Unsigned,
                number_dirty: true,
                ..old(periph)@
            }));
        }
    } else {
        proof {
            assert(final(periph)@ =~= old(periph)@);
        }
    }
}

} // verus!
