use vstd::prelude::*;

verus! {

/// One of the eight console keys.
#[derive(Copy, Clone)]
pub enum KeypadKey {
    Right,
    Left,
    Up,
    Down,
    A,
    B,
    Select,
    Start,
}

impl KeypadKey {
    /// True for the four directional keys, which live in the direction
    /// row; the others live in the action row.
    pub open spec fn spec_is_direction(self) -> bool {
        match self {
            KeypadKey::Right | KeypadKey::Left | KeypadKey::Up | KeypadKey::Down => true,
            _ => false,
        }
    }

    #[verifier::when_used_as_spec(spec_is_direction)]
    pub fn is_direction(self) -> (r: bool)
        ensures
            r == self.spec_is_direction(),
    {
        match self {
            KeypadKey::Right | KeypadKey::Left | KeypadKey::Up | KeypadKey::Down => true,
            _ => false,
        }
    }

    /// The bit this key occupies inside its 4-bit row.
    pub open spec fn spec_mask(self) -> u8 {
        match self {
            KeypadKey::Right => 0x01,
            KeypadKey::Left => 0x02,
            KeypadKey::Up => 0x04,
            KeypadKey::Down => 0x08,
            KeypadKey::A => 0x01,
            KeypadKey::B => 0x02,
            KeypadKey::Select => 0x04,
            KeypadKey::Start => 0x08,
        }
    }

    #[verifier::when_used_as_spec(spec_mask)]
    pub fn mask(self) -> (m: u8)
        ensures
            m == self.spec_mask(),
    {
        match self {
            KeypadKey::Right => 0x01,
            KeypadKey::Left => 0x02,
            KeypadKey::Up => 0x04,
            KeypadKey::Down => 0x08,
            KeypadKey::A => 0x01,
            KeypadKey::B => 0x02,
            KeypadKey::Select => 0x04,
            KeypadKey::Start => 0x08,
        }
    }
}

/// The value read back from the input register: the two select bits as
/// written, the upper bits high, and the low nibble active-low for every
/// selected row (a pressed key reads as a zero bit).
pub open spec fn joyp_value(select: u8, dir: u8, btn: u8) -> u8 {
    (0xC0u8 | (select & 0x30) | (0x0F & !((if select & 0x10 == 0 {
        dir
    } else {
        0
    }) | (if select & 0x20 == 0 {
        btn
    } else {
        0
    })))) as u8
}

/// The two 4-bit key rows and the row-select bits of the input register.
/// A set bit in `dir` or `btn` means the key is held down.
pub struct Keypad {
    /// Direction row: Right, Left, Up, Down in bits 0-3.
    pub dir: u8,
    /// Action row: A, B, Select, Start in bits 0-3.
    pub btn: u8,
    /// The last written row-select bits (bits 4-5 of the register).
    pub select: u8,
    /// A key press has requested the input interrupt; the bus consumes
    /// and clears this.
    pub irq: bool,
}

impl Keypad {
    /// Power-on keypad state: nothing pressed, both rows deselected.
    pub fn new() -> (k: Keypad)
        ensures
            k == (Keypad { dir: 0, btn: 0, select: 0x30, irq: false }),
    {
        Keypad { dir: 0, btn: 0, select: 0x30, irq: false }
    }

    /// Press a key: its row bit goes high and the input interrupt is
    /// requested.
    pub fn keydown(&mut self, key: KeypadKey)
        ensures
            final(self).dir == if key.spec_is_direction() {
                old(self).dir | key.spec_mask()
            } else {
                old(self).dir
            },
            final(self).btn == if key.spec_is_direction() {
                old(self).btn
            } else {
                old(self).btn | key.spec_mask()
            },
            final(self).select == old(self).select,
            final(self).irq,
    {
        if key.is_direction() {
            self.dir = self.dir | key.mask();
        } else {
            self.btn = self.btn | key.mask();
        }
        self.irq = true;
    }

    /// Release a key: its row bit goes low.
    pub fn keyup(&mut self, key: KeypadKey)
        ensures
            final(self).dir == if key.spec_is_direction() {
                old(self).dir & !key.spec_mask()
            } else {
                old(self).dir
            },
            final(self).btn == if key.spec_is_direction() {
                old(self).btn
            } else {
                old(self).btn & !key.spec_mask()
            },
            final(self).select == old(self).select,
            final(self).irq == old(self).irq,
    {
        if key.is_direction() {
            self.dir = self.dir & !key.mask();
        } else {
            self.btn = self.btn & !key.mask();
        }
    }

    /// Read the input register.
    pub fn rb(&self) -> (v: u8)
        ensures
            v == joyp_value(self.select, self.dir, self.btn),
    {
        let row: u8 = (if self.select & 0x10 == 0 {
            self.dir
        } else {
            0
        }) | (if self.select & 0x20 == 0 {
            self.btn
        } else {
            0
        });
        0xC0u8 | (self.select & 0x30) | (0x0F & !row)
    }

    /// Write the input register: only the row-select bits stick.
    pub fn wb(&mut self, v: u8)
        ensures
            *final(self) == (Keypad { select: v & 0x30, ..*old(self) }),
    {
        self.select = v & 0x30;
    }
}

} // verus!
