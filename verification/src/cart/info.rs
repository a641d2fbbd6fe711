//! The cartridge header: the fields at 0x0134 to 0x014D of the image.

use crate::cart::mapper::MapperType;
use vstd::prelude::*;

verus! {

/// The first offset past the header; a cartridge image is at least this long.
pub const HEADER_END: usize = 0x014E;

/// The first offset of the title.
pub const TITLE_BEGIN: usize = 0x0134;

/// The first offset past the title.
pub const TITLE_END: usize = 0x0143;

/// Why a header is refused.
#[derive(Clone, Copy, Debug, PartialEq, Eq, Structural)]
pub enum CartridgeInfoError {
    /// The image ends before the header does.
    InvalidCartridgeSize,
    /// The ROM size code is none of 0 to 8.
    InvalidRom,
    /// The RAM size code is none of 0, 2, 3, 4, 5.
    InvalidRam,
    /// The title holds a byte that is not ASCII.
    TitleStringFail,
    /// The SGB flag is neither 0x00 nor 0x03.
    SGBFlagFail,
    /// The region code is none of 0, 1, 2.
    RegionFail,
}

/// The cartridge type that the byte at 0x0147 names.
#[derive(Clone, Copy, Debug, PartialEq, Eq, Structural)]
pub enum CartType {
    Rom,
    Mbc1,
    Mbc1Ram,
    Mbc1RamBat,
    Mbc2,
    Mbc2Bat,
    RomRam,
    RomRamBat,
    Mmm01,
    Mmm01Ram,
    Mmm01RamBat,
    Mbc3BatTim,
    Mbc3RamBatTim,
    Mbc3,
    Mbc3Ram,
    Mbc3RamBat,
    Mbc5,
    Mbc5Ram,
    Mbc5RamBat,
    Mbc5Rum,
    Mbc5RamRum,
    Mbc5RamBatRum,
    Mbc6,
    Mbc7RamBatRumSen,
    Camera,
    Huc3,
    Huc1RamBat,
    /// Any byte that names none of the above.
    Unknown,
}

/// What the header says of the colour model.
#[derive(Clone, Copy, Debug, PartialEq, Eq, Structural)]
pub enum CgbFlag {
    Undefined,
    Supported,
    Only,
}

/// What the header says of the SGB accessory.
#[derive(Clone, Copy, Debug, PartialEq, Eq, Structural)]
pub enum SgbFlag {
    Disabled,
    Supported,
}

/// Where the cartridge was sold.
#[derive(Clone, Copy, Debug, PartialEq, Eq, Structural)]
pub enum Region {
    JapanOrWorld,
    NonJapanese,
    Undefined,
}

/// The cartridge type that the byte at 0x0147 names.
pub open spec fn cart_type_of(byte: u8) -> CartType {
    match byte {
        0x00 => CartType::Rom,
        0x01 => CartType::Mbc1,
        0x02 => CartType::Mbc1Ram,
        0x03 => CartType::Mbc1RamBat,
        0x05 => CartType::Mbc2,
        0x06 => CartType::Mbc2Bat,
        0x08 => CartType::RomRam,
        0x09 => CartType::RomRamBat,
        0x0B => CartType::Mmm01,
        0x0C => CartType::Mmm01Ram,
        0x0D => CartType::Mmm01RamBat,
        0x0F => CartType::Mbc3BatTim,
        0x10 => CartType::Mbc3RamBatTim,
        0x11 => CartType::Mbc3,
        0x12 => CartType::Mbc3Ram,
        0x13 => CartType::Mbc3RamBat,
        0x19 => CartType::Mbc5,
        0x1A => CartType::Mbc5Ram,
        0x1B => CartType::Mbc5RamBat,
        0x1C => CartType::Mbc5Rum,
        0x1D => CartType::Mbc5RamRum,
        0x1E => CartType::Mbc5RamBatRum,
        0x20 => CartType::Mbc6,
        0x22 => CartType::Mbc7RamBatRumSen,
        0xFC => CartType::Camera,
        0xFE => CartType::Huc3,
        0xFF => CartType::Huc1RamBat,
        _ => CartType::Unknown,
    }
}

/// The circuit that serves a cartridge type.
pub open spec fn mapper_of(t: CartType) -> MapperType {
    match t {
        CartType::Rom => MapperType::Rom,
        CartType::Mbc1 | CartType::Mbc1Ram | CartType::Mbc1RamBat => MapperType::Mbc1,
        CartType::Mbc2 | CartType::Mbc2Bat => MapperType::Mbc2,
        CartType::Mmm01 | CartType::Mmm01Ram | CartType::Mmm01RamBat => MapperType::Mmm01,
        CartType::Mbc3BatTim
        | CartType::Mbc3RamBatTim
        | CartType::Mbc3
        | CartType::Mbc3Ram
        | CartType::Mbc3RamBat => MapperType::Mbc3,
        CartType::Mbc5
        | CartType::Mbc5Ram
        | CartType::Mbc5RamBat
        | CartType::Mbc5Rum
        | CartType::Mbc5RamRum
        | CartType::Mbc5RamBatRum => MapperType::Mbc5,
        CartType::Mbc6 => MapperType::Mbc6,
        CartType::Mbc7RamBatRumSen => MapperType::Mbc7,
        CartType::Huc3 => MapperType::Huc3,
        CartType::Huc1RamBat => MapperType::Huc1,
        CartType::RomRam | CartType::RomRamBat | CartType::Camera | CartType::Unknown =>
            MapperType::Unknown,
    }
}

/// Whether a cartridge of this type keeps its RAM on a battery.
pub open spec fn has_battery(t: CartType) -> bool {
    match t {
        CartType::Mbc1RamBat
        | CartType::Mbc2Bat
        | CartType::RomRamBat
        | CartType::Mmm01RamBat
        | CartType::Mbc3BatTim
        | CartType::Mbc3RamBatTim
        | CartType::Mbc3RamBat
        | CartType::Mbc5RamBat
        | CartType::Mbc5RamBatRum
        | CartType::Mbc7RamBatRumSen => true,
        _ => false,
    }
}

/// Whether a cartridge of this type has external RAM.
pub open spec fn has_ram(t: CartType) -> bool {
    match t {
        CartType::Mbc1Ram
        | CartType::Mbc1RamBat
        | CartType::RomRam
        | CartType::RomRamBat
        | CartType::Mmm01Ram
        | CartType::Mmm01RamBat
        | CartType::Mbc3RamBatTim
        | CartType::Mbc3Ram
        | CartType::Mbc3RamBat
        | CartType::Mbc5Ram
        | CartType::Mbc5RamBat
        | CartType::Mbc5RamRum
        | CartType::Mbc5RamBatRum
        | CartType::Mbc6
        | CartType::Mbc7RamBatRumSen
        | CartType::Huc3
        | CartType::Huc1RamBat => true,
        _ => false,
    }
}

/// Whether a cartridge of this type has a rumble motor.
pub open spec fn has_rumble(t: CartType) -> bool {
    match t {
        CartType::Mbc5Rum
        | CartType::Mbc5RamRum
        | CartType::Mbc5RamBatRum
        | CartType::Mbc7RamBatRumSen => true,
        _ => false,
    }
}

/// Whether a cartridge of this type has a tilt sensor.
pub open spec fn has_sensor(t: CartType) -> bool {
    t == CartType::Mbc7RamBatRumSen
}

/// Whether a cartridge of this type carries a real-time clock.
pub open spec fn has_timer(t: CartType) -> bool {
    t == CartType::Mbc3BatTim || t == CartType::Mbc3RamBatTim
}

/// The CGB flag at 0x0143; any byte but 0x80 and 0xC0 counts as undefined.
pub open spec fn cgb_flag_of(byte: u8) -> CgbFlag {
    if byte == 0x80 {
        CgbFlag::Supported
    } else if byte == 0xC0 {
        CgbFlag::Only
    } else {
        CgbFlag::Undefined
    }
}

/// The SGB flag at 0x0146, where the byte is a known one.
pub open spec fn sgb_flag_of(byte: u8) -> Option<SgbFlag> {
    if byte == 0x00 {
        Some(SgbFlag::Disabled)
    } else if byte == 0x03 {
        Some(SgbFlag::Supported)
    } else {
        None
    }
}

/// The region at 0x014A, where the byte is a known one.
pub open spec fn region_of(byte: u8) -> Option<Region> {
    if byte == 0x00 {
        Some(Region::JapanOrWorld)
    } else if byte == 0x01 {
        Some(Region::NonJapanese)
    } else if byte == 0x02 {
        Some(Region::Undefined)
    } else {
        None
    }
}

/// 2 to the power `e`.
pub open spec fn pow2(e: nat) -> nat
    decreases e,
{
    if e == 0 {
        1
    } else {
        2 * pow2((e - 1) as nat)
    }
}

/// The ROM size in bytes for the code at 0x0148: 32 KiB doubled `code` times, for codes up to 8.
pub open spec fn rom_size_of(code: u8) -> Option<usize> {
    if code <= 8 {
        Some((32768 * pow2(code as nat)) as usize)
    } else {
        None
    }
}

/// The RAM size in bytes for the code at 0x0149.
pub open spec fn ram_size_of(code: u8) -> Option<usize> {
    match code {
        0x0 => Some(0usize),
        0x2 => Some(8192usize),
        0x3 => Some(32768usize),
        0x4 => Some(131072usize),
        0x5 => Some(65536usize),
        _ => None,
    }
}

/// Where the title ends, looking from `i` on: at the first zero byte, or at the end of its field.
pub open spec fn title_end(bytes: Seq<u8>, i: int) -> int
    decreases TITLE_END - i,
{
    if i >= TITLE_END || bytes[i] == 0 {
        i
    } else {
        title_end(bytes, i + 1)
    }
}

/// The bytes of the title, without the padding.
pub open spec fn title_bytes(bytes: Seq<u8>) -> Seq<u8> {
    bytes.subrange(TITLE_BEGIN as int, title_end(bytes, TITLE_BEGIN as int))
}

/// Whether every byte is below 0x80.
pub open spec fn all_ascii(s: Seq<u8>) -> bool {
    forall|i: int| 0 <= i < s.len() ==> s[i] < 0x80
}

/// The characters that ASCII bytes stand for.
pub open spec fn ascii_chars(s: Seq<u8>) -> Seq<char> {
    Seq::new(s.len(), |i: int| s[i] as char)
}

/// The checksum over the header bytes 0x0134 up to `end`: each byte is subtracted, and one more.
pub open spec fn checksum_upto(bytes: Seq<u8>, end: int) -> u8
    decreases end - TITLE_BEGIN,
{
    if end <= TITLE_BEGIN {
        0
    } else {
        ((checksum_upto(bytes, end - 1) - bytes[end - 1] - 1) % 256) as u8
    }
}

/// What the header of an image says, as plain values.
pub struct InfoModel {
    pub cart_type: CartType,
    pub title: Seq<char>,
    pub rom_size: usize,
    pub ram_size: usize,
    pub mapper: MapperType,
    pub battery: bool,
    pub ram: bool,
    pub rumble: bool,
    pub sensor: bool,
    pub time: bool,
    pub cgb_flag: CgbFlag,
    pub sgb_flag: SgbFlag,
    pub region: Region,
    pub version: u8,
    pub header_checksum: u8,
    pub old_licensee_code: u8,
    pub new_licensee_code: Option<(u8, u8)>,
}

/// The reason for which a header is refused, if any; the first that applies, in this order.
pub open spec fn header_fault(bytes: Seq<u8>) -> Option<CartridgeInfoError> {
    if bytes.len() < HEADER_END {
        Some(CartridgeInfoError::InvalidCartridgeSize)
    } else if !all_ascii(title_bytes(bytes)) {
        Some(CartridgeInfoError::TitleStringFail)
    } else if sgb_flag_of(bytes[0x0146]) is None {
        Some(CartridgeInfoError::SGBFlagFail)
    } else if rom_size_of(bytes[0x0148]) is None {
        Some(CartridgeInfoError::InvalidRom)
    } else if ram_size_of(bytes[0x0149]) is None {
        Some(CartridgeInfoError::InvalidRam)
    } else if region_of(bytes[0x014A]) is None {
        Some(CartridgeInfoError::RegionFail)
    } else {
        None
    }
}

/// The fields of a header that is not refused.
pub open spec fn header_fields(bytes: Seq<u8>) -> InfoModel
    recommends
        header_fault(bytes) is None,
{
    let cart_type = cart_type_of(bytes[0x0147]);
    InfoModel {
        cart_type,
        title: ascii_chars(title_bytes(bytes)),
        rom_size: rom_size_of(bytes[0x0148])->Some_0,
        ram_size: ram_size_of(bytes[0x0149])->Some_0,
        mapper: mapper_of(cart_type),
        battery: has_battery(cart_type),
        ram: has_ram(cart_type),
        rumble: has_rumble(cart_type),
        sensor: has_sensor(cart_type),
        time: has_timer(cart_type),
        cgb_flag: cgb_flag_of(bytes[0x0143]),
        sgb_flag: sgb_flag_of(bytes[0x0146])->Some_0,
        region: region_of(bytes[0x014A])->Some_0,
        version: bytes[0x014C],
        header_checksum: bytes[0x014D],
        old_licensee_code: bytes[0x014B],
        new_licensee_code: if bytes[0x014B] == 0x33 {
            Some((bytes[0x0144], bytes[0x0145]))
        } else {
            None
        },
    }
}

/// What the header of an image says.
pub struct CartridgeInfo {
    pub cart_type: CartType,
    pub title: String,
    pub rom_size: usize,
    pub ram_size: usize,
    pub mapper: MapperType,
    pub battery: bool,
    pub ram: bool,
    pub rumble: bool,
    pub sensor: bool,
    pub time: bool,
    pub cgb_flag: CgbFlag,
    pub sgb_flag: SgbFlag,
    pub region: Region,
    pub version: u8,
    pub header_checksum: u8,
    /// The byte at 0x014B; 0x33 defers to the new code.
    pub old_licensee_code: u8,
    /// The two bytes at 0x0144, present when the old code defers to them.
    pub new_licensee_code: Option<(u8, u8)>,
}

impl View for CartridgeInfo {
    type V = InfoModel;

    open spec fn view(&self) -> InfoModel {
        InfoModel {
            cart_type: self.cart_type,
            title: self.title@,
            rom_size: self.rom_size,
            ram_size: self.ram_size,
            mapper: self.mapper,
            battery: self.battery,
            ram: self.ram,
            rumble: self.rumble,
            sensor: self.sensor,
            time: self.time,
            cgb_flag: self.cgb_flag,
            sgb_flag: self.sgb_flag,
            region: self.region,
            version: self.version,
            header_checksum: self.header_checksum,
            old_licensee_code: self.old_licensee_code,
            new_licensee_code: self.new_licensee_code,
        }
    }
}

/// Appends one character with `String::push` of std, which adds exactly that
/// character at the end and leaves the rest as it was.
#[verifier::external_body]
fn push_char(s: &mut String, c: char)
    ensures
        final(s)@ == old(s)@.push(c),
{
    s.push(c)
}

impl CartType {
    /// The cartridge type that the byte at 0x0147 names.
    pub fn from_byte(byte: u8) -> (t: CartType)
        ensures
            t == cart_type_of(byte),
    {
        match byte {
            0x00 => CartType::Rom,
            0x01 => CartType::Mbc1,
            0x02 => CartType::Mbc1Ram,
            0x03 => CartType::Mbc1RamBat,
            0x05 => CartType::Mbc2,
            0x06 => CartType::Mbc2Bat,
            0x08 => CartType::RomRam,
            0x09 => CartType::RomRamBat,
            0x0B => CartType::Mmm01,
            0x0C => CartType::Mmm01Ram,
            0x0D => CartType::Mmm01RamBat,
            0x0F => CartType::Mbc3BatTim,
            0x10 => CartType::Mbc3RamBatTim,
            0x11 => CartType::Mbc3,
            0x12 => CartType::Mbc3Ram,
            0x13 => CartType::Mbc3RamBat,
            0x19 => CartType::Mbc5,
            0x1A => CartType::Mbc5Ram,
            0x1B => CartType::Mbc5RamBat,
            0x1C => CartType::Mbc5Rum,
            0x1D => CartType::Mbc5RamRum,
            0x1E => CartType::Mbc5RamBatRum,
            0x20 => CartType::Mbc6,
            0x22 => CartType::Mbc7RamBatRumSen,
            0xFC => CartType::Camera,
            0xFE => CartType::Huc3,
            0xFF => CartType::Huc1RamBat,
            _ => CartType::Unknown,
        }
    }

    /// The circuit that serves this cartridge type.
    pub fn mapper(&self) -> (m: MapperType)
        ensures
            m == mapper_of(*self),
    {
        match self {
            CartType::Rom => MapperType::Rom,
            CartType::Mbc1 | CartType::Mbc1Ram | CartType::Mbc1RamBat => MapperType::Mbc1,
            CartType::Mbc2 | CartType::Mbc2Bat => MapperType::Mbc2,
            CartType::Mmm01 | CartType::Mmm01Ram | CartType::Mmm01RamBat => MapperType::Mmm01,
            CartType::Mbc3BatTim
            | CartType::Mbc3RamBatTim
            | CartType::Mbc3
            | CartType::Mbc3Ram
            | CartType::Mbc3RamBat => MapperType::Mbc3,
            CartType::Mbc5
            | CartType::Mbc5Ram
            | CartType::Mbc5RamBat
            | CartType::Mbc5Rum
            | CartType::Mbc5RamRum
            | CartType::Mbc5RamBatRum => MapperType::Mbc5,
            CartType::Mbc6 => MapperType::Mbc6,
            CartType::Mbc7RamBatRumSen => MapperType::Mbc7,
            CartType::Huc3 => MapperType::Huc3,
            CartType::Huc1RamBat => MapperType::Huc1,
            CartType::RomRam | CartType::RomRamBat | CartType::Camera | CartType::Unknown =>
                MapperType::Unknown,
        }
    }

    /// Whether a battery keeps the RAM.
    pub fn battery(&self) -> (b: bool)
        ensures
            b == has_battery(*self),
    {
        match self {
            CartType::Mbc1RamBat
            | CartType::Mbc2Bat
            | CartType::RomRamBat
            | CartType::Mmm01RamBat
            | CartType::Mbc3BatTim
            | CartType::Mbc3RamBatTim
            | CartType::Mbc3RamBat
            | CartType::Mbc5RamBat
            | CartType::Mbc5RamBatRum
            | CartType::Mbc7RamBatRumSen => true,
            _ => false,
        }
    }

    /// Whether there is external RAM.
    pub fn ram(&self) -> (b: bool)
        ensures
            b == has_ram(*self),
    {
        match self {
            CartType::Mbc1Ram
            | CartType::Mbc1RamBat
            | CartType::RomRam
            | CartType::RomRamBat
            | CartType::Mmm01Ram
            | CartType::Mmm01RamBat
            | CartType::Mbc3RamBatTim
            | CartType::Mbc3Ram
            | CartType::Mbc3RamBat
            | CartType::Mbc5Ram
            | CartType::Mbc5RamBat
            | CartType::Mbc5RamRum
            | CartType::Mbc5RamBatRum
            | CartType::Mbc6
            | CartType::Mbc7RamBatRumSen
            | CartType::Huc3
            | CartType::Huc1RamBat => true,
            _ => false,
        }
    }

    /// Whether there is a rumble motor.
    pub fn rumble(&self) -> (b: bool)
        ensures
            b == has_rumble(*self),
    {
        match self {
            CartType::Mbc5Rum
            | CartType::Mbc5RamRum
            | CartType::Mbc5RamBatRum
            | CartType::Mbc7RamBatRumSen => true,
            _ => false,
        }
    }

    /// Whether there is a tilt sensor.
    pub fn sensor(&self) -> (b: bool)
        ensures
            b == has_sensor(*self),
    {
        match self {
            CartType::Mbc7RamBatRumSen => true,
            _ => false,
        }
    }

    /// Whether there is a real-time clock.
    pub fn time(&self) -> (b: bool)
        ensures
            b == has_timer(*self),
    {
        match self {
            CartType::Mbc3BatTim | CartType::Mbc3RamBatTim => true,
            _ => false,
        }
    }
}

impl CgbFlag {
    /// The CGB flag at 0x0143; any byte but 0x80 and 0xC0 counts as undefined.
    pub fn from_byte(byte: u8) -> (f: CgbFlag)
        ensures
            f == cgb_flag_of(byte),
    {
        if byte == 0x80 {
            CgbFlag::Supported
        } else if byte == 0xC0 {
            CgbFlag::Only
        } else {
            CgbFlag::Undefined
        }
    }
}

impl SgbFlag {
    /// The SGB flag at 0x0146, where the byte is a known one.
    pub fn from_byte(byte: u8) -> (f: Option<SgbFlag>)
        ensures
            f == sgb_flag_of(byte),
    {
        if byte == 0x00 {
            Some(SgbFlag::Disabled)
        } else if byte == 0x03 {
            Some(SgbFlag::Supported)
        } else {
            None
        }
    }
}

impl Region {
    /// The region at 0x014A, where the byte is a known one.
    pub fn from_byte(byte: u8) -> (r: Option<Region>)
        ensures
            r == region_of(byte),
    {
        if byte == 0x00 {
            Some(Region::JapanOrWorld)
        } else if byte == 0x01 {
            Some(Region::NonJapanese)
        } else if byte == 0x02 {
            Some(Region::Undefined)
        } else {
            None
        }
    }
}

/// The ROM size in bytes for the code at 0x0148.
pub fn get_rom_size(value: u8) -> (size: Option<usize>)
    ensures
        size == rom_size_of(value),
        size matches Some(s) ==> 32768 <= s <= 8388608 && s % 32768 == 0,
{
    reveal_with_fuel(pow2, 10);
    match value {
        0 => Some(32768),
        1 => Some(65536),
        2 => Some(131072),
        3 => Some(262144),
        4 => Some(524288),
        5 => Some(1048576),
        6 => Some(2097152),
        7 => Some(4194304),
        8 => Some(8388608),
        _ => None,
    }
}

/// The RAM size in bytes for the code at 0x0149.
pub fn get_ram_size(value: u8) -> (size: Option<usize>)
    ensures
        size == ram_size_of(value),
{
    match value {
        0x0 => Some(0),
        0x2 => Some(8192),
        0x3 => Some(32768),
        0x4 => Some(131072),
        0x5 => Some(65536),
        _ => None,
    }
}

/// The title ends at the first zero byte at or after `i`, wherever between `i` and that byte one starts.
proof fn lemma_title_end_step(bytes: Seq<u8>, i: int)
    requires
        TITLE_BEGIN <= i < TITLE_END,
        bytes[i] != 0,
    ensures
        title_end(bytes, i) == title_end(bytes, i + 1),
{
}

impl CartridgeInfo {
    /// Reads the header of a cartridge image. The image is refused for the
    /// first of these that holds: it ends before the header does; its title
    /// holds a byte that is not ASCII; its SGB flag, ROM size code, RAM size
    /// code or region code is none of the known values.
    pub fn new_from_cartridge(bytes: &Vec<u8>) -> (r: Result<CartridgeInfo, CartridgeInfoError>)
        ensures
            header_fault(bytes@) matches Some(e) ==> r == Err::<CartridgeInfo, CartridgeInfoError>(
                e,
            ),
            header_fault(bytes@) is None ==> r is Ok && r->Ok_0@ == header_fields(bytes@),
    {
        if bytes.len() < HEADER_END {
            return Err(CartridgeInfoError::InvalidCartridgeSize);
        }
        let mut title: String = String::new();
        let mut i: usize = TITLE_BEGIN;
        while i < TITLE_END && bytes[i] != 0
            invariant
                TITLE_BEGIN <= i <= TITLE_END,
                bytes@.len() >= HEADER_END,
                title_end(bytes@, TITLE_BEGIN as int) == title_end(bytes@, i as int),
                forall|j: int| TITLE_BEGIN <= j < i ==> bytes@[j] != 0 && bytes@[j] < 0x80,
                title@ == ascii_chars(bytes@.subrange(TITLE_BEGIN as int, i as int)),
            decreases TITLE_END - i,
        {
            let byte: u8 = bytes[i];
            if byte >= 0x80 {
                proof {
                    lemma_title_end_bounds(bytes@, i as int + 1);
                    assert(title_bytes(bytes@)[i - TITLE_BEGIN] == byte);
                }
                return Err(CartridgeInfoError::TitleStringFail);
            }
            push_char(&mut title, byte as char);
            proof {
                lemma_title_end_step(bytes@, i as int);
                assert(title@ =~= ascii_chars(bytes@.subrange(TITLE_BEGIN as int, i as int + 1)));
            }
            i = i + 1;
        }
        proof {
            assert(title_end(bytes@, i as int) == i);
            assert(title_bytes(bytes@) == bytes@.subrange(TITLE_BEGIN as int, i as int));
            assert(all_ascii(title_bytes(bytes@)));
        }
        let cart_type: CartType = CartType::from_byte(bytes[0x0147]);
        let cgb_flag: CgbFlag = CgbFlag::from_byte(bytes[0x0143]);
        let sgb_flag: SgbFlag = match SgbFlag::from_byte(bytes[0x0146]) {
            Some(f) => f,
            None => {
                return Err(CartridgeInfoError::SGBFlagFail);
            },
        };
        let rom_size: usize = match get_rom_size(bytes[0x0148]) {
            Some(s) => s,
            None => {
                return Err(CartridgeInfoError::InvalidRom);
            },
        };
        let ram_size: usize = match get_ram_size(bytes[0x0149]) {
            Some(s) => s,
            None => {
                return Err(CartridgeInfoError::InvalidRam);
            },
        };
        let region: Region = match Region::from_byte(bytes[0x014A]) {
            Some(r) => r,
            None => {
                return Err(CartridgeInfoError::RegionFail);
            },
        };
        let old_licensee_code: u8 = bytes[0x014B];
        let new_licensee_code: Option<(u8, u8)> = if old_licensee_code == 0x33 {
            Some((bytes[0x0144], bytes[0x0145]))
        } else {
            None
        };
        let info = CartridgeInfo {
            cart_type,
            title,
            rom_size,
            ram_size,
            mapper: cart_type.mapper(),
            battery: cart_type.battery(),
            ram: cart_type.ram(),
            rumble: cart_type.rumble(),
            sensor: cart_type.sensor(),
            time: cart_type.time(),
            cgb_flag,
            sgb_flag,
            region,
            version: bytes[0x014C],
            header_checksum: bytes[0x014D],
            old_licensee_code,
            new_licensee_code,
        };
        Ok(info)
    }
}

/// The title ends within its field.
proof fn lemma_title_end_bounds(bytes: Seq<u8>, i: int)
    requires
        TITLE_BEGIN <= i <= TITLE_END,
    ensures
        i <= title_end(bytes, i) <= TITLE_END,
    decreases TITLE_END - i,
{
    if i < TITLE_END && bytes[i] != 0 {
        lemma_title_end_bounds(bytes, i + 1);
    }
}

/// The reason for which a header is refused, in words.
pub open spec fn fault_text(e: CartridgeInfoError) -> Seq<char> {
    match e {
        CartridgeInfoError::InvalidCartridgeSize => "Cartridge is too short, probably invalid!"@,
        CartridgeInfoError::InvalidRom => "Invalid Rom amount!"@,
        CartridgeInfoError::InvalidRam => "Invalid Ram amount!"@,
        CartridgeInfoError::TitleStringFail => "Title string invalid!"@,
        CartridgeInfoError::SGBFlagFail => "SGB flag invalid!"@,
        CartridgeInfoError::RegionFail => "Region code invalid!"@,
    }
}

impl CartridgeInfoError {
    /// The reason in words.
    pub fn message(&self) -> (s: String)
        ensures
            s@ == fault_text(*self),
    {
        match self {
            CartridgeInfoError::InvalidCartridgeSize => "Cartridge is too short, probably invalid!".to_string(),
            CartridgeInfoError::InvalidRom => "Invalid Rom amount!".to_string(),
            CartridgeInfoError::InvalidRam => "Invalid Ram amount!".to_string(),
            CartridgeInfoError::TitleStringFail => "Title string invalid!".to_string(),
            CartridgeInfoError::SGBFlagFail => "SGB flag invalid!".to_string(),
            CartridgeInfoError::RegionFail => "Region code invalid!".to_string(),
        }
    }
}

} // verus!
