//! The boot ROM: up to 256 bytes that stand at the bottom of the address
//! space until the boot program switches them off.

use vstd::prelude::*;

verus! {

/// The size of the window that the boot ROM occupies.
pub const BIOS_SIZE: usize = 0x100;

/// A boot ROM image.
pub struct Bios {
    bios: Vec<u8>,
}

/// Why an image is refused as a boot ROM.
#[derive(Clone, Copy, Debug, PartialEq, Eq, Structural)]
pub enum BiosError {
    /// The image is longer than the window.
    BiosSize,
}

impl View for Bios {
    type V = Seq<u8>;

    closed spec fn view(&self) -> Seq<u8> {
        self.bios@
    }
}

/// What a read within the window gives: the image's byte, or 0xFF past its end.
pub open spec fn bios_read(image: Seq<u8>, address: u16) -> u8 {
    if address < image.len() {
        image[address as int]
    } else {
        0xFF
    }
}

impl Bios {
    /// A boot ROM of the given bytes; refused when longer than 256 bytes.
    pub fn new(bytes: Vec<u8>) -> (r: Result<Bios, BiosError>)
        ensures
            bytes@.len() <= BIOS_SIZE ==> r is Ok && r->Ok_0@ == bytes@,
            bytes@.len() > BIOS_SIZE ==> r == Err::<Bios, BiosError>(BiosError::BiosSize),
    {
        if bytes.len() > BIOS_SIZE {
            return Err(BiosError::BiosSize);
        }
        Ok(Bios { bios: bytes })
    }

    /// Reads the byte at `address`.
    pub fn b(&self, address: u16) -> (value: u8)
        requires
            address < BIOS_SIZE,
        ensures
            value == bios_read(self@, address),
    {
        let address: usize = address as usize;
        if address < self.bios.len() {
            self.bios[address]
        } else {
            0xFF
        }
    }

    /// The boot ROM cannot be written.
    pub fn wb(&self, address: u16, value: u8) {
    }
}

impl BiosError {
    /// The reason in words.
    pub fn message(&self) -> (s: String)
        ensures
            s@ == "Bios is too large!"@,
    {
        "Bios is too large!".to_string()
    }
}

} // verus!
