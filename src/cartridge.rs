//! The cartridge: its header, decoded from fixed offsets of the image, and its
//! storage, split into a fixed low bank, a switchable high window and optional RAM.

use vstd::prelude::*;
use vstd::arithmetic::div_mod::lemma_add_mod_noop_right;
use crate::banked::{BankedModel, OPEN_BUS};
use crate::ram::Ram;
use crate::virtual_memory::MemoryMappedPeripheral;
use vstd::slice::slice_to_vec;

verus! {

/// Read-only storage of `S` bytes per bank.
pub struct Rom<const S: usize> {
    buffer: Vec<Vec<u8>>,
    banks: usize,
    actual_bank: usize,
}

impl<const S: usize> View for Rom<S> {
    type V = BankedModel;

    closed spec fn view(&self) -> BankedModel {
        BankedModel {
            window: S as nat,
            banks: Seq::new(self.buffer@.len(), |i: int| self.buffer@[i]@),
            active: self.actual_bank as nat,
        }
    }
}

proof fn lemma_next_bank_fits(i: nat, banks: nat, window: nat)
    requires
        i < banks,
    ensures
        i * window + window <= banks * window,
        (i + 1) * window == i * window + window,
{
    assert(i * window + window <= banks * window) by (nonlinear_arith)
        requires i < banks;
    assert((i + 1) * window == i * window + window) by (nonlinear_arith);
}

impl<const S: usize> Rom<S> {
    pub closed spec fn wf(&self) -> bool {
        &&& self.buffer@.len() == self.banks
        &&& self.actual_bank < self.banks
        &&& forall|i: int| 0 <= i < self.buffer@.len() ==> (#[trigger] self.buffer@[i])@.len() == S
    }

    pub proof fn lemma_wf_view(&self)
        requires
            self.wf(),
        ensures
            self@.wf(),
            self@.window == S,
    {
        assert forall|i: int| 0 <= i < self@.banks.len() implies (#[trigger] self@.banks[i]).len() == self@.window by {
            assert(self.buffer@[i]@.len() == S);
        }
    }

    /// Splits the front of `content` into `banks` banks of `S` bytes, bank 0 active.
    pub fn new(content: Vec<u8>, banks: usize) -> (r: Self)
        requires
            banks >= 1,
            banks * S <= content@.len(),
        ensures
            r.wf(),
            r@ == BankedModel::split(S as nat, content@, banks as nat),
    {
        let len = content.len();
        let mut buffer: Vec<Vec<u8>> = Vec::new();
        let mut i: usize = 0;
        let mut start: usize = 0;
        while i < banks
            invariant
                len == content@.len(),
                i <= banks,
                start == i * S,
                banks * S <= content@.len(),
                buffer@.len() == i,
                forall|k: int| 0 <= k < i ==> (#[trigger] buffer@[k])@ == content@.subrange(k * S, (k + 1) * S),
                forall|k: int| 0 <= k < i ==> (#[trigger] buffer@[k])@.len() == S,
            decreases banks - i,
        {
            proof { lemma_next_bank_fits(i as nat, banks as nat, S as nat); }
            let mut bank: Vec<u8> = Vec::new();
            let mut j: usize = 0;
            while j < S
                invariant
                    len == content@.len(),
                    j <= S,
                    start + S <= content@.len(),
                    bank@ == content@.subrange(start as int, start + j),
                decreases S - j,
            {
                bank.push(content[start + j]);
                j = j + 1;
                assert(bank@ =~= content@.subrange(start as int, start + j));
            }
            buffer.push(bank);
            i = i + 1;
            start = start + S;
        }
        let r = Rom { buffer, banks, actual_bank: 0 };
        assert(r@.banks =~= BankedModel::split(S as nat, content@, banks as nat).banks);
        r
    }

    /// Makes `bank` active when it is below the bank count; otherwise does nothing.
    pub fn sel_bank(&mut self, bank: usize)
        requires
            old(self).wf(),
        ensures
            final(self).wf(),
            final(self)@ == old(self)@.select(bank as int),
    {
        if bank >= self.banks {
            return;
        }
        self.actual_bank = bank;
        assert(self@.banks =~= old(self)@.banks);
    }
}

impl<const S: usize> MemoryMappedPeripheral for Rom<S> {
    open spec fn inv(&self) -> bool {
        self.wf()
    }

    open spec fn readable(&self, address: u16) -> bool {
        true
    }

    open spec fn writable(&self, address: u16, data: u8) -> bool {
        true
    }

    open spec fn read_value(&self, address: u16) -> u8 {
        self@.read(address as int)
    }

    /// Writes never change read-only storage.
    open spec fn written(&self, after: Self, address: u16, data: u8) -> bool {
        after@ == self@
    }

    fn write(&mut self, address: u16, data: u8) {
    }

    fn read(&self, address: u16) -> (r: u8) {
        let a = address as usize;
        if a >= S {
            return OPEN_BUS;
        }
        proof { self.lemma_wf_view(); }
        self.buffer[self.actual_bank][a]
    }
}

/// The header checksum of `bytes`: starting at 0, each byte and then 1 more are
/// subtracted, modulo 256.
pub open spec fn header_checksum_of(bytes: Seq<u8>) -> u8
    decreases bytes.len(),
{
    if bytes.len() == 0 {
        0
    } else {
        ((header_checksum_of(bytes.drop_last()) as int - bytes.last() as int - 1) % 256) as u8
    }
}

/// Replacing one byte shifts the checksum by the difference, modulo 256.
proof fn lemma_checksum_update(bytes: Seq<u8>, i: int, b: u8)
    requires
        0 <= i < bytes.len(),
    ensures
        header_checksum_of(bytes.update(i, b)) as int
            == (header_checksum_of(bytes) as int + bytes[i] as int - b as int) % 256,
    decreases bytes.len(),
{
    let changed = bytes.update(i, b);
    let c = header_checksum_of(bytes.drop_last()) as int;
    let last = bytes.last() as int;
    let delta = bytes[i] as int - b as int;
    if i == bytes.len() - 1 {
        assert(changed.drop_last() =~= bytes.drop_last());
        lemma_add_mod_noop_right(delta, c - last - 1, 256);
    } else {
        assert(changed.drop_last() =~= bytes.drop_last().update(i, b));
        lemma_checksum_update(bytes.drop_last(), i, b);
        lemma_add_mod_noop_right(-last - 1, c + delta, 256);
        lemma_add_mod_noop_right(delta, c - last - 1, 256);
    }
}

/// A checksum detects every change of a single byte.
pub proof fn header_checksum_detects_one_byte(bytes: Seq<u8>, i: int, b: u8)
    requires
        0 <= i < bytes.len(),
        b != bytes[i],
    ensures
        header_checksum_of(bytes.update(i, b)) != header_checksum_of(bytes),
{
    lemma_checksum_update(bytes, i, b);
}

/// The characters of `bytes` that are printable ASCII (0x20..=0x7E), in order.
pub open spec fn ascii_text(bytes: Seq<u8>) -> Seq<char>
    decreases bytes.len(),
{
    if bytes.len() == 0 {
        Seq::empty()
    } else if 0x20 <= bytes.last() <= 0x7E {
        ascii_text(bytes.drop_last()).push(bytes.last() as char)
    } else {
        ascii_text(bytes.drop_last())
    }
}

/// Relies on `String::push`: it appends one character at the end.
#[verifier::external_body]
fn push_char(s: &mut String, c: char)
    ensures
        final(s)@ == old(s)@.push(c),
{
    s.push(c)
}

/// Number of ROM banks that a size code declares; `None` for an unknown code.
pub open spec fn rom_bank_count_of(code: u8) -> Option<usize> {
    match code {
        0x00 => Some(2),
        0x01 => Some(4),
        0x02 => Some(8),
        0x03 => Some(16),
        0x04 => Some(32),
        0x05 => Some(64),
        0x06 => Some(128),
        0x07 => Some(256),
        0x08 => Some(512),
        0x52 => Some(3),
        0x53 => Some(3),
        0x54 => Some(3),
        _ => None,
    }
}

/// Number of RAM banks that a size code declares; `None` for an unknown code.
pub open spec fn ram_bank_count_of(code: u8) -> Option<usize> {
    match code {
        0x00 => Some(0),
        0x01 => Some(0),
        0x02 => Some(1),
        0x03 => Some(4),
        0x04 => Some(16),
        0x05 => Some(8),
        _ => None,
    }
}

/// Publisher named by the two-character code of the newer header layout.
#[allow(non_camel_case_types)]
#[derive(Debug, Clone, Copy, PartialEq, Eq, Structural)]
pub enum NewLicensee {
    NoLicensee,
    NintendoRnD1,
    Capcom,
    EletronicArts,
    HudsonSoft,
    b_ai,
    kss,
    pow,
    PCMComplete,
    san_x,
    KemcoJapan,
    seta,
    Viacom,
    Nintendo,
    Bandai,
    Ocean_Acclaim,
    Konami,
    Hector,
    Taito,
    Hudson,
    Banpresto,
    UbiSoft,
    Atlus,
    Malibu,
    angel,
    Bullet_Proof,
    irem,
    Absolute,
    Acclaim,
    Activision,
    AmericanSammy,
    Konami2,
    HiTechEntertainment,
    LJN,
    Matchbox,
    Mattel,
    MiltonBradley,
    Titus,
    Virgin,
    LucasArts,
    Ocean,
    EletronicArts2,
    Infogrames,
    Interplay,
    Broderbund,
    sculptured,
    sci,
    THQ,
    Accolade,
    misawa,
    lozc,
    TokumaShotenIntermedia,
    TsukudaOriginal,
    Chunsoft,
    VideoSystem,
    Ocean_Acclaim2,
    Varie,
    Yonezawa_spal,
    Kaneko,
    PackInSoft,
    BottomUp,
    Konami_YuGiOh,
}

impl NewLicensee {
    /// The code that the header layout assigns to this publisher.
    pub open spec fn code(self) -> (char, char) {
        match self {
            NewLicensee::NoLicensee => ('0', '0'),
            NewLicensee::NintendoRnD1 => ('0', '1'),
            NewLicensee::Capcom => ('0', '8'),
            NewLicensee::EletronicArts => ('1', '3'),
            NewLicensee::HudsonSoft => ('1', '8'),
            NewLicensee::b_ai => ('1', '9'),
            NewLicensee::kss => ('2', '0'),
            NewLicensee::pow => ('2', '2'),
            NewLicensee::PCMComplete => ('2', '4'),
            NewLicensee::san_x => ('2', '5'),
            NewLicensee::KemcoJapan => ('2', '8'),
            NewLicensee::seta => ('2', '9'),
            NewLicensee::Viacom => ('3', '0'),
            NewLicensee::Nintendo => ('3', '1'),
            NewLicensee::Bandai => ('3', '2'),
            NewLicensee::Ocean_Acclaim => ('3', '3'),
            NewLicensee::Konami => ('3', '4'),
            NewLicensee::Hector => ('3', '5'),
            NewLicensee::Taito => ('3', '7'),
            NewLicensee::Hudson => ('3', '8'),
            NewLicensee::Banpresto => ('3', '9'),
            NewLicensee::UbiSoft => ('4', '1'),
            NewLicensee::Atlus => ('4', '2'),
            NewLicensee::Malibu => ('4', '4'),
            NewLicensee::angel => ('4', '6'),
            NewLicensee::Bullet_Proof => ('4', '7'),
            NewLicensee::irem => ('4', '9'),
            NewLicensee::Absolute => ('5', '0'),
            NewLicensee::Acclaim => ('5', '1'),
            NewLicensee::Activision => ('5', '2'),
            NewLicensee::AmericanSammy => ('5', '3'),
            NewLicensee::Konami2 => ('5', '4'),
            NewLicensee::HiTechEntertainment => ('5', '5'),
            NewLicensee::LJN => ('5', '6'),
            NewLicensee::Matchbox => ('5', '7'),
            NewLicensee::Mattel => ('5', '8'),
            NewLicensee::MiltonBradley => ('5', '9'),
            NewLicensee::Titus => ('6', '0'),
            NewLicensee::Virgin => ('6', '1'),
            NewLicensee::LucasArts => ('6', '4'),
            NewLicensee::Ocean => ('6', '7'),
            NewLicensee::EletronicArts2 => ('6', '9'),
            NewLicensee::Infogrames => ('7', '0'),
            NewLicensee::Interplay => ('7', '1'),
            NewLicensee::Broderbund => ('7', '2'),
            NewLicensee::sculptured => ('7', '3'),
            NewLicensee::sci => ('7', '5'),
            NewLicensee::THQ => ('7', '8'),
            NewLicensee::Accolade => ('7', '9'),
            NewLicensee::misawa => ('8', '0'),
            NewLicensee::lozc => ('8', '3'),
            NewLicensee::TokumaShotenIntermedia => ('8', '6'),
            NewLicensee::TsukudaOriginal => ('8', '7'),
            NewLicensee::Chunsoft => ('9', '1'),
            NewLicensee::VideoSystem => ('9', '2'),
            NewLicensee::Ocean_Acclaim2 => ('9', '3'),
            NewLicensee::Varie => ('9', '5'),
            NewLicensee::Yonezawa_spal => ('9', '6'),
            NewLicensee::Kaneko => ('9', '7'),
            NewLicensee::PackInSoft => ('9', '9'),
            NewLicensee::BottomUp => ('9', 'H'),
            NewLicensee::Konami_YuGiOh => ('A', '4'),
        }
    }

    /// Decodes a two-character code; `None` for a code outside the table.
    pub fn from_code(first: char, second: char) -> (r: Option<NewLicensee>)
        ensures
            r == new_licensee_of(first, second),
    {
        match (first, second) {
            ('0', '0') | ('\0', '\0') => Some(NewLicensee::NoLicensee),
            ('0', '1') => Some(NewLicensee::NintendoRnD1),
            ('0', '8') => Some(NewLicensee::Capcom),
            ('1', '3') => Some(NewLicensee::EletronicArts),
            ('1', '8') => Some(NewLicensee::HudsonSoft),
            ('1', '9') => Some(NewLicensee::b_ai),
            ('2', '0') => Some(NewLicensee::kss),
            ('2', '2') => Some(NewLicensee::pow),
            ('2', '4') => Some(NewLicensee::PCMComplete),
            ('2', '5') => Some(NewLicensee::san_x),
            ('2', '8') => Some(NewLicensee::KemcoJapan),
            ('2', '9') => Some(NewLicensee::seta),
            ('3', '0') => Some(NewLicensee::Viacom),
            ('3', '1') => Some(NewLicensee::Nintendo),
            ('3', '2') => Some(NewLicensee::Bandai),
            ('3', '3') => Some(NewLicensee::Ocean_Acclaim),
            ('3', '4') => Some(NewLicensee::Konami),
            ('3', '5') => Some(NewLicensee::Hector),
            ('3', '7') => Some(NewLicensee::Taito),
            ('3', '8') => Some(NewLicensee::Hudson),
            ('3', '9') => Some(NewLicensee::Banpresto),
            ('4', '1') => Some(NewLicensee::UbiSoft),
            ('4', '2') => Some(NewLicensee::Atlus),
            ('4', '4') => Some(NewLicensee::Malibu),
            ('4', '6') => Some(NewLicensee::angel),
            ('4', '7') => Some(NewLicensee::Bullet_Proof),
            ('4', '9') => Some(NewLicensee::irem),
            ('5', '0') => Some(NewLicensee::Absolute),
            ('5', '1') => Some(NewLicensee::Acclaim),
            ('5', '2') => Some(NewLicensee::Activision),
            ('5', '3') => Some(NewLicensee::AmericanSammy),
            ('5', '4') => Some(NewLicensee::Konami2),
            ('5', '5') => Some(NewLicensee::HiTechEntertainment),
            ('5', '6') => Some(NewLicensee::LJN),
            ('5', '7') => Some(NewLicensee::Matchbox),
            ('5', '8') => Some(NewLicensee::Mattel),
            ('5', '9') => Some(NewLicensee::MiltonBradley),
            ('6', '0') => Some(NewLicensee::Titus),
            ('6', '1') => Some(NewLicensee::Virgin),
            ('6', '4') => Some(NewLicensee::LucasArts),
            ('6', '7') => Some(NewLicensee::Ocean),
            ('6', '9') => Some(NewLicensee::EletronicArts2),
            ('7', '0') => Some(NewLicensee::Infogrames),
            ('7', '1') => Some(NewLicensee::Interplay),
            ('7', '2') => Some(NewLicensee::Broderbund),
            ('7', '3') => Some(NewLicensee::sculptured),
            ('7', '5') => Some(NewLicensee::sci),
            ('7', '8') => Some(NewLicensee::THQ),
            ('7', '9') => Some(NewLicensee::Accolade),
            ('8', '0') => Some(NewLicensee::misawa),
            ('8', '3') => Some(NewLicensee::lozc),
            ('8', '6') => Some(NewLicensee::TokumaShotenIntermedia),
            ('8', '7') => Some(NewLicensee::TsukudaOriginal),
            ('9', '1') => Some(NewLicensee::Chunsoft),
            ('9', '2') => Some(NewLicensee::VideoSystem),
            ('9', '3') => Some(NewLicensee::Ocean_Acclaim2),
            ('9', '5') => Some(NewLicensee::Varie),
            ('9', '6') => Some(NewLicensee::Yonezawa_spal),
            ('9', '7') => Some(NewLicensee::Kaneko),
            ('9', '9') => Some(NewLicensee::PackInSoft),
            ('9', 'H') => Some(NewLicensee::BottomUp),
            ('A', '4') => Some(NewLicensee::Konami_YuGiOh),
            _ => None,
        }
    }
}

/// The publisher that a two-character code names; a blank code (two NUL
/// characters) stands for no publisher, as the code "00" does.
pub open spec fn new_licensee_of(first: char, second: char) -> Option<NewLicensee> {
    match (first, second) {
        ('0', '0') | ('\0', '\0') => Some(NewLicensee::NoLicensee),
        ('0', '1') => Some(NewLicensee::NintendoRnD1),
        ('0', '8') => Some(NewLicensee::Capcom),
        ('1', '3') => Some(NewLicensee::EletronicArts),
        ('1', '8') => Some(NewLicensee::HudsonSoft),
        ('1', '9') => Some(NewLicensee::b_ai),
        ('2', '0') => Some(NewLicensee::kss),
        ('2', '2') => Some(NewLicensee::pow),
        ('2', '4') => Some(NewLicensee::PCMComplete),
        ('2', '5') => Some(NewLicensee::san_x),
        ('2', '8') => Some(NewLicensee::KemcoJapan),
        ('2', '9') => Some(NewLicensee::seta),
        ('3', '0') => Some(NewLicensee::Viacom),
        ('3', '1') => Some(NewLicensee::Nintendo),
        ('3', '2') => Some(NewLicensee::Bandai),
        ('3', '3') => Some(NewLicensee::Ocean_Acclaim),
        ('3', '4') => Some(NewLicensee::Konami),
        ('3', '5') => Some(NewLicensee::Hector),
        ('3', '7') => Some(NewLicensee::Taito),
        ('3', '8') => Some(NewLicensee::Hudson),
        ('3', '9') => Some(NewLicensee::Banpresto),
        ('4', '1') => Some(NewLicensee::UbiSoft),
        ('4', '2') => Some(NewLicensee::Atlus),
        ('4', '4') => Some(NewLicensee::Malibu),
        ('4', '6') => Some(NewLicensee::angel),
        ('4', '7') => Some(NewLicensee::Bullet_Proof),
        ('4', '9') => Some(NewLicensee::irem),
        ('5', '0') => Some(NewLicensee::Absolute),
        ('5', '1') => Some(NewLicensee::Acclaim),
        ('5', '2') => Some(NewLicensee::Activision),
        ('5', '3') => Some(NewLicensee::AmericanSammy),
        ('5', '4') => Some(NewLicensee::Konami2),
        ('5', '5') => Some(NewLicensee::HiTechEntertainment),
        ('5', '6') => Some(NewLicensee::LJN),
        ('5', '7') => Some(NewLicensee::Matchbox),
        ('5', '8') => Some(NewLicensee::Mattel),
        ('5', '9') => Some(NewLicensee::MiltonBradley),
        ('6', '0') => Some(NewLicensee::Titus),
        ('6', '1') => Some(NewLicensee::Virgin),
        ('6', '4') => Some(NewLicensee::LucasArts),
        ('6', '7') => Some(NewLicensee::Ocean),
        ('6', '9') => Some(NewLicensee::EletronicArts2),
        ('7', '0') => Some(NewLicensee::Infogrames),
        ('7', '1') => Some(NewLicensee::Interplay),
        ('7', '2') => Some(NewLicensee::Broderbund),
        ('7', '3') => Some(NewLicensee::sculptured),
        ('7', '5') => Some(NewLicensee::sci),
        ('7', '8') => Some(NewLicensee::THQ),
        ('7', '9') => Some(NewLicensee::Accolade),
        ('8', '0') => Some(NewLicensee::misawa),
        ('8', '3') => Some(NewLicensee::lozc),
        ('8', '6') => Some(NewLicensee::TokumaShotenIntermedia),
        ('8', '7') => Some(NewLicensee::TsukudaOriginal),
        ('9', '1') => Some(NewLicensee::Chunsoft),
        ('9', '2') => Some(NewLicensee::VideoSystem),
        ('9', '3') => Some(NewLicensee::Ocean_Acclaim2),
        ('9', '5') => Some(NewLicensee::Varie),
        ('9', '6') => Some(NewLicensee::Yonezawa_spal),
        ('9', '7') => Some(NewLicensee::Kaneko),
        ('9', '9') => Some(NewLicensee::PackInSoft),
        ('9', 'H') => Some(NewLicensee::BottomUp),
        ('A', '4') => Some(NewLicensee::Konami_YuGiOh),
        _ => None,
    }
}

/// Controller and extra hardware that the cartridge carries.
#[allow(non_camel_case_types)]
#[derive(Debug, Clone, Copy, PartialEq, Eq, Structural)]
pub enum CartridgeType {
    RomOnly,
    Mbc1,
    Mbc1Ram,
    Mbc1RamBattery,
    Mbc2,
    Mbc2Battery,
    RomRam,
    RomRamBattery,
    Mmm01,
    Mmm01Ram,
    Mmm01RamBattery,
    Mbc3TimerBattery,
    Mbc3TimerRamBattery,
    Mbc3,
    Mbc3Ram,
    Mbc3RamBattery,
    Mbc5,
    Mbc5Ram,
    Mbc5RamBattery,
    Mbc5Rumble,
    Mbc5RumbleRam,
    Mbc5RumbleRamBattery,
    Mbc6,
    Mbc7SensorRumbleRamBattery,
    PocketCamera,
    BandaiTama5,
    HuC3,
    HuC1RamBattery,
}

/// The cartridge type that a header byte names.
pub open spec fn cartridge_type_of(code: u8) -> Option<CartridgeType> {
    match code {
        0x00 => Some(CartridgeType::RomOnly),
        0x01 => Some(CartridgeType::Mbc1),
        0x02 => Some(CartridgeType::Mbc1Ram),
        0x03 => Some(CartridgeType::Mbc1RamBattery),
        0x05 => Some(CartridgeType::Mbc2),
        0x06 => Some(CartridgeType::Mbc2Battery),
        0x08 => Some(CartridgeType::RomRam),
        0x09 => Some(CartridgeType::RomRamBattery),
        0x0B => Some(CartridgeType::Mmm01),
        0x0C => Some(CartridgeType::Mmm01Ram),
        0x0D => Some(CartridgeType::Mmm01RamBattery),
        0x0F => Some(CartridgeType::Mbc3TimerBattery),
        0x10 => Some(CartridgeType::Mbc3TimerRamBattery),
        0x11 => Some(CartridgeType::Mbc3),
        0x12 => Some(CartridgeType::Mbc3Ram),
        0x13 => Some(CartridgeType::Mbc3RamBattery),
        0x19 => Some(CartridgeType::Mbc5),
        0x1A => Some(CartridgeType::Mbc5Ram),
        0x1B => Some(CartridgeType::Mbc5RamBattery),
        0x1C => Some(CartridgeType::Mbc5Rumble),
        0x1D => Some(CartridgeType::Mbc5RumbleRam),
        0x1E => Some(CartridgeType::Mbc5RumbleRamBattery),
        0x20 => Some(CartridgeType::Mbc6),
        0x22 => Some(CartridgeType::Mbc7SensorRumbleRamBattery),
        0xFC => Some(CartridgeType::PocketCamera),
        0xFD => Some(CartridgeType::BandaiTama5),
        0xFE => Some(CartridgeType::HuC3),
        0xFF => Some(CartridgeType::HuC1RamBattery),
        _ => None,
    }
}

impl CartridgeType {
    /// Decodes a header byte; `None` for a byte that names no variant.
    pub fn from_code(code: u8) -> (r: Option<CartridgeType>)
        ensures
            r == cartridge_type_of(code),
    {
        match code {
            0x00 => Some(CartridgeType::RomOnly),
            0x01 => Some(CartridgeType::Mbc1),
            0x02 => Some(CartridgeType::Mbc1Ram),
            0x03 => Some(CartridgeType::Mbc1RamBattery),
            0x05 => Some(CartridgeType::Mbc2),
            0x06 => Some(CartridgeType::Mbc2Battery),
            0x08 => Some(CartridgeType::RomRam),
            0x09 => Some(CartridgeType::RomRamBattery),
            0x0B => Some(CartridgeType::Mmm01),
            0x0C => Some(CartridgeType::Mmm01Ram),
            0x0D => Some(CartridgeType::Mmm01RamBattery),
            0x0F => Some(CartridgeType::Mbc3TimerBattery),
            0x10 => Some(CartridgeType::Mbc3TimerRamBattery),
            0x11 => Some(CartridgeType::Mbc3),
            0x12 => Some(CartridgeType::Mbc3Ram),
            0x13 => Some(CartridgeType::Mbc3RamBattery),
            0x19 => Some(CartridgeType::Mbc5),
            0x1A => Some(CartridgeType::Mbc5Ram),
            0x1B => Some(CartridgeType::Mbc5RamBattery),
            0x1C => Some(CartridgeType::Mbc5Rumble),
            0x1D => Some(CartridgeType::Mbc5RumbleRam),
            0x1E => Some(CartridgeType::Mbc5RumbleRamBattery),
            0x20 => Some(CartridgeType::Mbc6),
            0x22 => Some(CartridgeType::Mbc7SensorRumbleRamBattery),
            0xFC => Some(CartridgeType::PocketCamera),
            0xFD => Some(CartridgeType::BandaiTama5),
            0xFE => Some(CartridgeType::HuC3),
            0xFF => Some(CartridgeType::HuC1RamBattery),
            _ => None,
        }
    }
}

/// Region the cartridge is sold in.
#[allow(non_camel_case_types)]
#[derive(Debug, Clone, Copy, PartialEq, Eq, Structural)]
pub enum Destination {
    Japan,
    Overseas,
}

/// The region that a header byte names.
pub open spec fn destination_of(code: u8) -> Option<Destination> {
    match code {
        0x00 => Some(Destination::Japan),
        0x01 => Some(Destination::Overseas),
        _ => None,
    }
}

impl Destination {
    /// Decodes a header byte; `None` for a byte that names no variant.
    pub fn from_code(code: u8) -> (r: Option<Destination>)
        ensures
            r == destination_of(code),
    {
        match code {
            0x00 => Some(Destination::Japan),
            0x01 => Some(Destination::Overseas),
            _ => None,
        }
    }
}

/// Publisher named by the single-byte code of the older header layout;
/// `NewLicenseeCode` says that the two-character code applies instead.
#[allow(non_camel_case_types)]
#[derive(Debug, Clone, Copy, PartialEq, Eq, Structural)]
pub enum OldLicensee {
    NoLicensee,
    Nintendo,
    Capcom,
    Hot_B,
    Jaleco,
    Coconuts_Japan,
    Elite_Systems,
    EA,
    Hudsonsoft,
    ITC_Entertainment,
    Yanoman,
    Japan_Clary,
    Virgin_Interactive,
    PCM_Complete,
    San_X,
    Kotobuki_Systems,
    Seta,
    Infogrames,
    Nintendo2,
    Bandai,
    NewLicenseeCode,
    Konami,
    HectorSoft,
    Capcom2,
    Banpresto,
    Entertainment_i,
    Gremlin,
    Ubisoft,
    Atlus,
    Malibu,
    Angel,
    Spectrum_Holoby,
    Irem,
    Virgin_Interactive2,
    Malibu2,
    US_Gold,
    Absolute,
    Acclaim,
    Activision,
    American_Sammy,
    GameTek,
    Park_Place,
    LJN,
    Matchbox,
    Milton_Bradley,
    Mindscape,
    Romstar,
    Naxat_Soft,
    Tradewest,
    Titus,
    Virgin_Interactive3,
    Ocean_Interactive,
    EA2,
    Elite_Systems2,
    Electro_Brain,
    Infogrames2,
    Interplay,
    Broderbund,
    Sculptered_Soft,
    The_Sales_Curve,
    t_hq,
    Accolade,
    Triffix_Entertainment,
    Microprose,
    Kemco,
    Misawa_Entertainment,
    Lozc,
    Tokuma_Shoten_Intermedia,
    Bullet_Proof_Software,
    Vic_Tokai,
    Ape,
    I_Max,
    Chunsoft_Co,
    Video_System,
    Tsubaraya_Productions_Co,
    Varie_Corporation,
    Yonezawa_S_Pal,
    Kaneko,
    Arc,
    Nihon_Bussan,
    Tecmo,
    Imagineer,
    Banpresto2,
    Nova,
    Hori_Electric,
    Bandai2,
    Konami2,
    Kawada,
    Takara,
    Technos_Japan,
    Broderbund2,
    Toei_Animation,
    Toho,
    Namco,
    acclaim,
    ASCII_or_Nexsoft,
    Bandai3,
    Square_Enix,
    HAL_Laboratory,
    SNK,
    Pony_Canyon,
    Culture_Brain,
    Sunsoft,
    Sony_Imagesoft,
    Sammy,
    Taito,
    Kemco2,
    Squaresoft,
    Tokuma_Shoten_Intermedia2,
    Data_East,
    Tonkinhouse,
    Koei,
    UFL,
    Ultra,
    Vap,
    Use_Corporation,
    Meldac,
    Pony_Canyon_or,
    Angel2,
    Taito2,
    Sofel,
    Quest,
    Sigma_Enterprises,
    ASK_Kodansha_Co,
    Naxat_Soft2,
    Copya_System,
    Banpresto3,
    Tomy,
    LJN2,
    NCS,
    Human,
    Altron,
    Jaleco2,
    Towa_Chiki,
    Yutaka,
    Varie,
    Epcoh,
    Athena,
    Asmik_ACE_Entertainment,
    Natsume,
    King_Records,
    Atlus2,
    Epic_Sony_Records,
    IGS,
    A_Wave,
    Extreme_Entertainment,
    LJN3,
}

/// The publisher that a single-byte code names.
pub open spec fn old_licensee_of(code: u8) -> Option<OldLicensee> {
    match code {
        0x00 => Some(OldLicensee::NoLicensee),
        0x01 => Some(OldLicensee::Nintendo),
        0x08 => Some(OldLicensee::Capcom),
        0x09 => Some(OldLicensee::Hot_B),
        0x0A => Some(OldLicensee::Jaleco),
        0x0B => Some(OldLicensee::Coconuts_Japan),
        0x0C => Some(OldLicensee::Elite_Systems),
        0x13 => Some(OldLicensee::EA),
        0x18 => Some(OldLicensee::Hudsonsoft),
        0x19 => Some(OldLicensee::ITC_Entertainment),
        0x1A => Some(OldLicensee::Yanoman),
        0x1D => Some(OldLicensee::Japan_Clary),
        0x1F => Some(OldLicensee::Virgin_Interactive),
        0x24 => Some(OldLicensee::PCM_Complete),
        0x25 => Some(OldLicensee::San_X),
        0x28 => Some(OldLicensee::Kotobuki_Systems),
        0x29 => Some(OldLicensee::Seta),
        0x30 => Some(OldLicensee::Infogrames),
        0x31 => Some(OldLicensee::Nintendo2),
        0x32 => Some(OldLicensee::Bandai),
        0x33 => Some(OldLicensee::NewLicenseeCode),
        0x34 => Some(OldLicensee::Konami),
        0x35 => Some(OldLicensee::HectorSoft),
        0x38 => Some(OldLicensee::Capcom2),
        0x39 => Some(OldLicensee::Banpresto),
        0x3C => Some(OldLicensee::Entertainment_i),
        0x3E => Some(OldLicensee::Gremlin),
        0x41 => Some(OldLicensee::Ubisoft),
        0x42 => Some(OldLicensee::Atlus),
        0x44 => Some(OldLicensee::Malibu),
        0x46 => Some(OldLicensee::Angel),
        0x47 => Some(OldLicensee::Spectrum_Holoby),
        0x49 => Some(OldLicensee::Irem),
        0x4A => Some(OldLicensee::Virgin_Interactive2),
        0x4D => Some(OldLicensee::Malibu2),
        0x4F => Some(OldLicensee::US_Gold),
        0x50 => Some(OldLicensee::Absolute),
        0x51 => Some(OldLicensee::Acclaim),
        0x52 => Some(OldLicensee::Activision),
        0x53 => Some(OldLicensee::American_Sammy),
        0x54 => Some(OldLicensee::GameTek),
        0x55 => Some(OldLicensee::Park_Place),
        0x56 => Some(OldLicensee::LJN),
        0x57 => Some(OldLicensee::Matchbox),
        0x59 => Some(OldLicensee::Milton_Bradley),
        0x5A => Some(OldLicensee::Mindscape),
        0x5B => Some(OldLicensee::Romstar),
        0x5C => Some(OldLicensee::Naxat_Soft),
        0x5D => Some(OldLicensee::Tradewest),
        0x60 => Some(OldLicensee::Titus),
        0x61 => Some(OldLicensee::Virgin_Interactive3),
        0x67 => Some(OldLicensee::Ocean_Interactive),
        0x69 => Some(OldLicensee::EA2),
        0x6E => Some(OldLicensee::Elite_Systems2),
        0x6F => Some(OldLicensee::Electro_Brain),
        0x70 => Some(OldLicensee::Infogrames2),
        0x71 => Some(OldLicensee::Interplay),
        0x72 => Some(OldLicensee::Broderbund),
        0x73 => Some(OldLicensee::Sculptered_Soft),
        0x75 => Some(OldLicensee::The_Sales_Curve),
        0x78 => Some(OldLicensee::t_hq),
        0x79 => Some(OldLicensee::Accolade),
        0x7A => Some(OldLicensee::Triffix_Entertainment),
        0x7C => Some(OldLicensee::Microprose),
        0x7F => Some(OldLicensee::Kemco),
        0x80 => Some(OldLicensee::Misawa_Entertainment),
        0x83 => Some(OldLicensee::Lozc),
        0x86 => Some(OldLicensee::Tokuma_Shoten_Intermedia),
        0x8B => Some(OldLicensee::Bullet_Proof_Software),
        0x8C => Some(OldLicensee::Vic_Tokai),
        0x8E => Some(OldLicensee::Ape),
        0x8F => Some(OldLicensee::I_Max),
        0x91 => Some(OldLicensee::Chunsoft_Co),
        0x92 => Some(OldLicensee::Video_System),
        0x93 => Some(OldLicensee::Tsubaraya_Productions_Co),
        0x95 => Some(OldLicensee::Varie_Corporation),
        0x96 => Some(OldLicensee::Yonezawa_S_Pal),
        0x97 => Some(OldLicensee::Kaneko),
        0x99 => Some(OldLicensee::Arc),
        0x9A => Some(OldLicensee::Nihon_Bussan),
        0x9B => Some(OldLicensee::Tecmo),
        0x9C => Some(OldLicensee::Imagineer),
        0x9D => Some(OldLicensee::Banpresto2),
        0x9F => Some(OldLicensee::Nova),
        0xA1 => Some(OldLicensee::Hori_Electric),
        0xA2 => Some(OldLicensee::Bandai2),
        0xA4 => Some(OldLicensee::Konami2),
        0xA6 => Some(OldLicensee::Kawada),
        0xA7 => Some(OldLicensee::Takara),
        0xA9 => Some(OldLicensee::Technos_Japan),
        0xAA => Some(OldLicensee::Broderbund2),
        0xAC => Some(OldLicensee::Toei_Animation),
        0xAD => Some(OldLicensee::Toho),
        0xAF => Some(OldLicensee::Namco),
        0xB0 => Some(OldLicensee::acclaim),
        0xB1 => Some(OldLicensee::ASCII_or_Nexsoft),
        0xB2 => Some(OldLicensee::Bandai3),
        0xB4 => Some(OldLicensee::Square_Enix),
        0xB6 => Some(OldLicensee::HAL_Laboratory),
        0xB7 => Some(OldLicensee::SNK),
        0xB9 => Some(OldLicensee::Pony_Canyon),
        0xBA => Some(OldLicensee::Culture_Brain),
        0xBB => Some(OldLicensee::Sunsoft),
        0xBD => Some(OldLicensee::Sony_Imagesoft),
        0xBF => Some(OldLicensee::Sammy),
        0xC0 => Some(OldLicensee::Taito),
        0xC2 => Some(OldLicensee::Kemco2),
        0xC3 => Some(OldLicensee::Squaresoft),
        0xC4 => Some(OldLicensee::Tokuma_Shoten_Intermedia2),
        0xC5 => Some(OldLicensee::Data_East),
        0xC6 => Some(OldLicensee::Tonkinhouse),
        0xC8 => Some(OldLicensee::Koei),
        0xC9 => Some(OldLicensee::UFL),
        0xCA => Some(OldLicensee::Ultra),
        0xCB => Some(OldLicensee::Vap),
        0xCC => Some(OldLicensee::Use_Corporation),
        0xCD => Some(OldLicensee::Meldac),
        0xCE => Some(OldLicensee::Pony_Canyon_or),
        0xCF => Some(OldLicensee::Angel2),
        0xD0 => Some(OldLicensee::Taito2),
        0xD1 => Some(OldLicensee::Sofel),
        0xD2 => Some(OldLicensee::Quest),
        0xD3 => Some(OldLicensee::Sigma_Enterprises),
        0xD4 => Some(OldLicensee::ASK_Kodansha_Co),
        0xD6 => Some(OldLicensee::Naxat_Soft2),
        0xD7 => Some(OldLicensee::Copya_System),
        0xD9 => Some(OldLicensee::Banpresto3),
        0xDA => Some(OldLicensee::Tomy),
        0xDB => Some(OldLicensee::LJN2),
        0xDD => Some(OldLicensee::NCS),
        0xDE => Some(OldLicensee::Human),
        0xDF => Some(OldLicensee::Altron),
        0xE0 => Some(OldLicensee::Jaleco2),
        0xE1 => Some(OldLicensee::Towa_Chiki),
        0xE2 => Some(OldLicensee::Yutaka),
        0xE3 => Some(OldLicensee::Varie),
        0xE5 => Some(OldLicensee::Epcoh),
        0xE7 => Some(OldLicensee::Athena),
        0xE8 => Some(OldLicensee::Asmik_ACE_Entertainment),
        0xE9 => Some(OldLicensee::Natsume),
        0xEA => Some(OldLicensee::King_Records),
        0xEB => Some(OldLicensee::Atlus2),
        0xEC => Some(OldLicensee::Epic_Sony_Records),
        0xEE => Some(OldLicensee::IGS),
        0xF0 => Some(OldLicensee::A_Wave),
        0xF3 => Some(OldLicensee::Extreme_Entertainment),
        0xFF => Some(OldLicensee::LJN3),
        _ => None,
    }
}

impl OldLicensee {
    /// Decodes a header byte; `None` for a byte that names no variant.
    pub fn from_code(code: u8) -> (r: Option<OldLicensee>)
        ensures
            r == old_licensee_of(code),
    {
        match code {
            0x00 => Some(OldLicensee::NoLicensee),
            0x01 => Some(OldLicensee::Nintendo),
            0x08 => Some(OldLicensee::Capcom),
            0x09 => Some(OldLicensee::Hot_B),
            0x0A => Some(OldLicensee::Jaleco),
            0x0B => Some(OldLicensee::Coconuts_Japan),
            0x0C => Some(OldLicensee::Elite_Systems),
            0x13 => Some(OldLicensee::EA),
            0x18 => Some(OldLicensee::Hudsonsoft),
            0x19 => Some(OldLicensee::ITC_Entertainment),
            0x1A => Some(OldLicensee::Yanoman),
            0x1D => Some(OldLicensee::Japan_Clary),
            0x1F => Some(OldLicensee::Virgin_Interactive),
            0x24 => Some(OldLicensee::PCM_Complete),
            0x25 => Some(OldLicensee::San_X),
            0x28 => Some(OldLicensee::Kotobuki_Systems),
            0x29 => Some(OldLicensee::Seta),
            0x30 => Some(OldLicensee::Infogrames),
            0x31 => Some(OldLicensee::Nintendo2),
            0x32 => Some(OldLicensee::Bandai),
            0x33 => Some(OldLicensee::NewLicenseeCode),
            0x34 => Some(OldLicensee::Konami),
            0x35 => Some(OldLicensee::HectorSoft),
            0x38 => Some(OldLicensee::Capcom2),
            0x39 => Some(OldLicensee::Banpresto),
            0x3C => Some(OldLicensee::Entertainment_i),
            0x3E => Some(OldLicensee::Gremlin),
            0x41 => Some(OldLicensee::Ubisoft),
            0x42 => Some(OldLicensee::Atlus),
            0x44 => Some(OldLicensee::Malibu),
            0x46 => Some(OldLicensee::Angel),
            0x47 => Some(OldLicensee::Spectrum_Holoby),
            0x49 => Some(OldLicensee::Irem),
            0x4A => Some(OldLicensee::Virgin_Interactive2),
            0x4D => Some(OldLicensee::Malibu2),
            0x4F => Some(OldLicensee::US_Gold),
            0x50 => Some(OldLicensee::Absolute),
            0x51 => Some(OldLicensee::Acclaim),
            0x52 => Some(OldLicensee::Activision),
            0x53 => Some(OldLicensee::American_Sammy),
            0x54 => Some(OldLicensee::GameTek),
            0x55 => Some(OldLicensee::Park_Place),
            0x56 => Some(OldLicensee::LJN),
            0x57 => Some(OldLicensee::Matchbox),
            0x59 => Some(OldLicensee::Milton_Bradley),
            0x5A => Some(OldLicensee::Mindscape),
            0x5B => Some(OldLicensee::Romstar),
            0x5C => Some(OldLicensee::Naxat_Soft),
            0x5D => Some(OldLicensee::Tradewest),
            0x60 => Some(OldLicensee::Titus),
            0x61 => Some(OldLicensee::Virgin_Interactive3),
            0x67 => Some(OldLicensee::Ocean_Interactive),
            0x69 => Some(OldLicensee::EA2),
            0x6E => Some(OldLicensee::Elite_Systems2),
            0x6F => Some(OldLicensee::Electro_Brain),
            0x70 => Some(OldLicensee::Infogrames2),
            0x71 => Some(OldLicensee::Interplay),
            0x72 => Some(OldLicensee::Broderbund),
            0x73 => Some(OldLicensee::Sculptered_Soft),
            0x75 => Some(OldLicensee::The_Sales_Curve),
            0x78 => Some(OldLicensee::t_hq),
            0x79 => Some(OldLicensee::Accolade),
            0x7A => Some(OldLicensee::Triffix_Entertainment),
            0x7C => Some(OldLicensee::Microprose),
            0x7F => Some(OldLicensee::Kemco),
            0x80 => Some(OldLicensee::Misawa_Entertainment),
            0x83 => Some(OldLicensee::Lozc),
            0x86 => Some(OldLicensee::Tokuma_Shoten_Intermedia),
            0x8B => Some(OldLicensee::Bullet_Proof_Software),
            0x8C => Some(OldLicensee::Vic_Tokai),
            0x8E => Some(OldLicensee::Ape),
            0x8F => Some(OldLicensee::I_Max),
            0x91 => Some(OldLicensee::Chunsoft_Co),
            0x92 => Some(OldLicensee::Video_System),
            0x93 => Some(OldLicensee::Tsubaraya_Productions_Co),
            0x95 => Some(OldLicensee::Varie_Corporation),
            0x96 => Some(OldLicensee::Yonezawa_S_Pal),
            0x97 => Some(OldLicensee::Kaneko),
            0x99 => Some(OldLicensee::Arc),
            0x9A => Some(OldLicensee::Nihon_Bussan),
            0x9B => Some(OldLicensee::Tecmo),
            0x9C => Some(OldLicensee::Imagineer),
            0x9D => Some(OldLicensee::Banpresto2),
            0x9F => Some(OldLicensee::Nova),
            0xA1 => Some(OldLicensee::Hori_Electric),
            0xA2 => Some(OldLicensee::Bandai2),
            0xA4 => Some(OldLicensee::Konami2),
            0xA6 => Some(OldLicensee::Kawada),
            0xA7 => Some(OldLicensee::Takara),
            0xA9 => Some(OldLicensee::Technos_Japan),
            0xAA => Some(OldLicensee::Broderbund2),
            0xAC => Some(OldLicensee::Toei_Animation),
            0xAD => Some(OldLicensee::Toho),
            0xAF => Some(OldLicensee::Namco),
            0xB0 => Some(OldLicensee::acclaim),
            0xB1 => Some(OldLicensee::ASCII_or_Nexsoft),
            0xB2 => Some(OldLicensee::Bandai3),
            0xB4 => Some(OldLicensee::Square_Enix),
            0xB6 => Some(OldLicensee::HAL_Laboratory),
            0xB7 => Some(OldLicensee::SNK),
            0xB9 => Some(OldLicensee::Pony_Canyon),
            0xBA => Some(OldLicensee::Culture_Brain),
            0xBB => Some(OldLicensee::Sunsoft),
            0xBD => Some(OldLicensee::Sony_Imagesoft),
            0xBF => Some(OldLicensee::Sammy),
            0xC0 => Some(OldLicensee::Taito),
            0xC2 => Some(OldLicensee::Kemco2),
            0xC3 => Some(OldLicensee::Squaresoft),
            0xC4 => Some(OldLicensee::Tokuma_Shoten_Intermedia2),
            0xC5 => Some(OldLicensee::Data_East),
            0xC6 => Some(OldLicensee::Tonkinhouse),
            0xC8 => Some(OldLicensee::Koei),
            0xC9 => Some(OldLicensee::UFL),
            0xCA => Some(OldLicensee::Ultra),
            0xCB => Some(OldLicensee::Vap),
            0xCC => Some(OldLicensee::Use_Corporation),
            0xCD => Some(OldLicensee::Meldac),
            0xCE => Some(OldLicensee::Pony_Canyon_or),
            0xCF => Some(OldLicensee::Angel2),
            0xD0 => Some(OldLicensee::Taito2),
            0xD1 => Some(OldLicensee::Sofel),
            0xD2 => Some(OldLicensee::Quest),
            0xD3 => Some(OldLicensee::Sigma_Enterprises),
            0xD4 => Some(OldLicensee::ASK_Kodansha_Co),
            0xD6 => Some(OldLicensee::Naxat_Soft2),
            0xD7 => Some(OldLicensee::Copya_System),
            0xD9 => Some(OldLicensee::Banpresto3),
            0xDA => Some(OldLicensee::Tomy),
            0xDB => Some(OldLicensee::LJN2),
            0xDD => Some(OldLicensee::NCS),
            0xDE => Some(OldLicensee::Human),
            0xDF => Some(OldLicensee::Altron),
            0xE0 => Some(OldLicensee::Jaleco2),
            0xE1 => Some(OldLicensee::Towa_Chiki),
            0xE2 => Some(OldLicensee::Yutaka),
            0xE3 => Some(OldLicensee::Varie),
            0xE5 => Some(OldLicensee::Epcoh),
            0xE7 => Some(OldLicensee::Athena),
            0xE8 => Some(OldLicensee::Asmik_ACE_Entertainment),
            0xE9 => Some(OldLicensee::Natsume),
            0xEA => Some(OldLicensee::King_Records),
            0xEB => Some(OldLicensee::Atlus2),
            0xEC => Some(OldLicensee::Epic_Sony_Records),
            0xEE => Some(OldLicensee::IGS),
            0xF0 => Some(OldLicensee::A_Wave),
            0xF3 => Some(OldLicensee::Extreme_Entertainment),
            0xFF => Some(OldLicensee::LJN3),
            _ => None,
        }
    }
}

impl Cartridge {
    /// Number of ROM banks that a size code declares.
    pub fn decode_rom_bank_count(bank_count: u8) -> (r: Option<usize>)
        ensures
            r == rom_bank_count_of(bank_count),
    {
        match bank_count {
            0x00 => Some(2),
            0x01 => Some(4),
            0x02 => Some(8),
            0x03 => Some(16),
            0x04 => Some(32),
            0x05 => Some(64),
            0x06 => Some(128),
            0x07 => Some(256),
            0x08 => Some(512),
            0x52 => Some(3),
            0x53 => Some(3),
            0x54 => Some(3),
            _ => None,
        }
    }

    /// Number of RAM banks that a size code declares.
    pub fn decode_ram_bank_count(bank_count: u8) -> (r: Option<usize>)
        ensures
            r == ram_bank_count_of(bank_count),
    {
        match bank_count {
            0x00 => Some(0),
            0x01 => Some(0),
            0x02 => Some(1),
            0x03 => Some(4),
            0x04 => Some(16),
            0x05 => Some(8),
            _ => None,
        }
    }

    /// Keeps the bytes that are printable ASCII, as characters; NUL, control
    /// and non-ASCII bytes are dropped.
    pub fn decode_ascii(raw_title: &[u8]) -> (r: String)
        ensures
            r@ == ascii_text(raw_title@),
    {
        let mut title = String::new();
        let mut i: usize = 0;
        while i < raw_title.len()
            invariant
                i <= raw_title@.len(),
                title@ == ascii_text(raw_title@.subrange(0, i as int)),
            decreases raw_title@.len() - i,
        {
            let letter = raw_title[i];
            proof {
                assert(raw_title@.subrange(0, i + 1).drop_last() =~= raw_title@.subrange(0, i as int));
            }
            if 0x20 <= letter && letter <= 0x7E {
                push_char(&mut title, letter as char);
            }
            i = i + 1;
        }
        assert(raw_title@.subrange(0, raw_title@.len() as int) =~= raw_title@);
        title
    }

    /// The header checksum of `content`.
    pub fn compute_header_checksum(content: &[u8]) -> (r: u8)
        ensures
            r == header_checksum_of(content@),
    {
        let mut checksum: u8 = 0;
        let mut i: usize = 0;
        while i < content.len()
            invariant
                i <= content@.len(),
                checksum == header_checksum_of(content@.subrange(0, i as int)),
            decreases content@.len() - i,
        {
            proof {
                assert(content@.subrange(0, i + 1).drop_last() =~= content@.subrange(0, i as int));
            }
            checksum = checksum.wrapping_sub(content[i]).wrapping_sub(1);
            i = i + 1;
        }
        assert(content@.subrange(0, content@.len() as int) =~= content@);
        checksum
    }
}

/// Every publisher of the two-character table decodes from its own code, so no
/// two publishers share a code; and a code decodes to a publisher only when it
/// is that publisher's code, or the blank code that stands for no publisher.
pub proof fn new_licensee_codes_are_distinct(first: char, second: char, v: NewLicensee, w: NewLicensee)
    ensures
        new_licensee_of(v.code().0, v.code().1) == Some(v),
        v.code() == w.code() ==> v == w,
        new_licensee_of(first, second) == Some(v) ==> v.code() == (first, second) || (
        v == NewLicensee::NoLicensee && first == '\0' && second == '\0'),
{
    assert(new_licensee_of(v.code().0, v.code().1) == Some(v));
    assert(new_licensee_of(w.code().0, w.code().1) == Some(w));
}

/// Size of one ROM bank, and of each ROM window of the bus.
pub const ROM_BANK_SIZE: usize = 0x4000;

/// Size of one bank of cartridge RAM.
pub const RAM_BANK_SIZE: usize = 0x2000;

/// First offset past the header; a shorter image has no complete header.
pub const HEADER_END: usize = 0x0150;

/// Why an image cannot be loaded.
#[derive(Debug, Clone, Copy, PartialEq, Eq, Structural)]
pub enum LoadError {
    /// The image ends before the header does.
    MissingHeader,
    UnknownCartridgeType(u8),
    UnknownRomSize(u8),
    UnknownRamSize(u8),
    /// The image holds fewer ROM banks than its header declares.
    Truncated,
    /// The checksum over the header disagrees with the one stored in it.
    HeaderChecksum { computed: u8, stored: u8 },
    UnknownNewLicensee(u8, u8),
    UnknownDestination(u8),
    UnknownOldLicensee(u8),
}

/// The first reason, in the order in which loading checks them, why `content`
/// cannot be loaded; `None` when it can.
pub open spec fn load_fault(content: Seq<u8>) -> Option<LoadError> {
    if content.len() < HEADER_END {
        Some(LoadError::MissingHeader)
    } else if cartridge_type_of(content[0x147]) is None {
        Some(LoadError::UnknownCartridgeType(content[0x147]))
    } else if rom_bank_count_of(content[0x148]) is None {
        Some(LoadError::UnknownRomSize(content[0x148]))
    } else if ram_bank_count_of(content[0x149]) is None {
        Some(LoadError::UnknownRamSize(content[0x149]))
    } else if content.len() < rom_bank_count_of(content[0x148]).unwrap() * ROM_BANK_SIZE {
        Some(LoadError::Truncated)
    } else if header_checksum_of(content.subrange(0x134, 0x14D)) != content[0x14D] {
        Some(
            LoadError::HeaderChecksum {
                computed: header_checksum_of(content.subrange(0x134, 0x14D)),
                stored: content[0x14D],
            },
        )
    } else if new_licensee_of(content[0x144] as char, content[0x145] as char) is None {
        Some(LoadError::UnknownNewLicensee(content[0x144], content[0x145]))
    } else if destination_of(content[0x14A]) is None {
        Some(LoadError::UnknownDestination(content[0x14A]))
    } else if old_licensee_of(content[0x14B]) is None {
        Some(LoadError::UnknownOldLicensee(content[0x14B]))
    } else {
        None
    }
}

/// Changing any one byte of the checksummed header range of a loadable image
/// makes the image fail to load.
pub proof fn header_corruption_is_detected(content: Seq<u8>, i: int, b: u8)
    requires
        load_fault(content) is None,
        0x134 <= i <= 0x14C,
        b != content[i],
    ensures
        load_fault(content.update(i, b)) is Some,
{
    let changed = content.update(i, b);
    assert(changed.subrange(0x134, 0x14D) =~= content.subrange(0x134, 0x14D).update(i - 0x134, b));
    header_checksum_detects_one_byte(content.subrange(0x134, 0x14D), i - 0x134, b);
}

/// What a cartridge holds: its decoded header and the storage not yet taken from it.
pub struct CartridgeModel {
    pub title: Seq<char>,
    pub manufacturer: Seq<char>,
    pub new_licensee: NewLicensee,
    pub cartridge_type: CartridgeType,
    pub destination: Destination,
    pub old_licensee: OldLicensee,
    pub mask_rom_version: u8,
    pub cgb_flag: u8,
    pub sgb_flag: u8,
    pub rom_bank_count: usize,
    pub ram_bank_count: usize,
    pub header_checksum: u8,
    pub global_checksum: u16,
    pub bank0: Option<BankedModel>,
    pub bank1: Option<BankedModel>,
    pub ram: Option<BankedModel>,
}

/// The cartridge that a loadable image gives.
pub open spec fn parsed(content: Seq<u8>) -> CartridgeModel {
    let rom_banks = rom_bank_count_of(content[0x148]).unwrap();
    let ram_banks = ram_bank_count_of(content[0x149]).unwrap();
    CartridgeModel {
        title: ascii_text(content.subrange(0x134, 0x144)),
        manufacturer: ascii_text(content.subrange(0x13F, 0x143)),
        new_licensee: new_licensee_of(content[0x144] as char, content[0x145] as char).unwrap(),
        cartridge_type: cartridge_type_of(content[0x147]).unwrap(),
        destination: destination_of(content[0x14A]).unwrap(),
        old_licensee: old_licensee_of(content[0x14B]).unwrap(),
        mask_rom_version: content[0x14C],
        cgb_flag: content[0x143],
        sgb_flag: content[0x146],
        rom_bank_count: rom_banks,
        ram_bank_count: ram_banks,
        header_checksum: content[0x14D],
        global_checksum: (content[0x14F] as int * 256 + content[0x14E] as int) as u16,
        bank0: Some(BankedModel::split(ROM_BANK_SIZE as nat, content.subrange(0, ROM_BANK_SIZE as int), 1)),
        bank1: Some(
            BankedModel::split(
                ROM_BANK_SIZE as nat,
                content.subrange(ROM_BANK_SIZE as int, content.len() as int),
                (rom_banks - 1) as nat,
            ),
        ),
        ram: if ram_banks > 0 {
            Some(BankedModel::blank(RAM_BANK_SIZE as nat, ram_banks as nat))
        } else {
            None
        },
    }
}

/// A cartridge image, decoded.
pub struct Cartridge {
    title: String,
    manufacture: String,
    new_licensee: NewLicensee,
    cartridge_type: CartridgeType,
    destination: Destination,
    old_licensee: OldLicensee,
    mask_rom_version: u8,
    cgb_flag: u8,
    sgb_flag: u8,
    rom_bank_count: usize,
    ram_bank_count: usize,
    header_checksum: u8,
    global_checksum: u16,
    bank0: Option<Rom<0x4000>>,
    bank1: Option<Rom<0x4000>>,
    ram: Option<Ram<0x2000>>,
}

impl View for Cartridge {
    type V = CartridgeModel;

    closed spec fn view(&self) -> CartridgeModel {
        CartridgeModel {
            title: self.title@,
            manufacturer: self.manufacture@,
            new_licensee: self.new_licensee,
            cartridge_type: self.cartridge_type,
            destination: self.destination,
            old_licensee: self.old_licensee,
            mask_rom_version: self.mask_rom_version,
            cgb_flag: self.cgb_flag,
            sgb_flag: self.sgb_flag,
            rom_bank_count: self.rom_bank_count,
            ram_bank_count: self.ram_bank_count,
            header_checksum: self.header_checksum,
            global_checksum: self.global_checksum,
            bank0: match self.bank0 { Some(b) => Some(b@), None => None },
            bank1: match self.bank1 { Some(b) => Some(b@), None => None },
            ram: match self.ram { Some(b) => Some(b@), None => None },
        }
    }
}

impl Cartridge {
    /// The storage still held is well formed.
    pub closed spec fn wf(&self) -> bool {
        &&& (self.bank0 matches Some(b) ==> b.wf())
        &&& (self.bank1 matches Some(b) ==> b.wf())
        &&& (self.ram matches Some(r) ==> r.wf())
    }

    /// Decodes the header of `content` and splits it into banks; fails, with the
    /// first reason that `load_fault` names, when the image is not loadable.
    pub fn load(content: &[u8]) -> (r: Result<Cartridge, LoadError>)
        ensures
            match r {
                Ok(c) => load_fault(content@) is None && c.wf() && c@ == parsed(content@),
                Err(e) => load_fault(content@) == Some(e),
            },
    {
        if content.len() < HEADER_END {
            return Err(LoadError::MissingHeader);
        }
        let cartridge_type = match CartridgeType::from_code(content[0x147]) {
            Some(t) => t,
            None => return Err(LoadError::UnknownCartridgeType(content[0x147])),
        };
        let rom_banks = match Cartridge::decode_rom_bank_count(content[0x148]) {
            Some(n) => n,
            None => return Err(LoadError::UnknownRomSize(content[0x148])),
        };
        let ram_banks = match Cartridge::decode_ram_bank_count(content[0x149]) {
            Some(n) => n,
            None => return Err(LoadError::UnknownRamSize(content[0x149])),
        };
        if content.len() < rom_banks * ROM_BANK_SIZE {
            return Err(LoadError::Truncated);
        }
        let header_checksum = content[0x14D];
        let computed = Cartridge::compute_header_checksum(&content[0x134..0x14D]);
        if computed != header_checksum {
            return Err(LoadError::HeaderChecksum { computed, stored: header_checksum });
        }
        let new_licensee = match NewLicensee::from_code(content[0x144] as char, content[0x145] as char) {
            Some(l) => l,
            None => return Err(LoadError::UnknownNewLicensee(content[0x144], content[0x145])),
        };
        let destination = match Destination::from_code(content[0x14A]) {
            Some(d) => d,
            None => return Err(LoadError::UnknownDestination(content[0x14A])),
        };
        let old_licensee = match OldLicensee::from_code(content[0x14B]) {
            Some(l) => l,
            None => return Err(LoadError::UnknownOldLicensee(content[0x14B])),
        };
        let title = Cartridge::decode_ascii(&content[0x134..0x144]);
        let manufacture = Cartridge::decode_ascii(&content[0x13F..0x143]);
        let global_checksum = (content[0x14F] as u16) * 256 + (content[0x14E] as u16);
        let bank0 = Rom::new(slice_to_vec(&content[0..ROM_BANK_SIZE]), 1);
        let bank1 = Rom::new(slice_to_vec(&content[ROM_BANK_SIZE..content.len()]), rom_banks - 1);
        let ram = if ram_banks > 0 {
            Some(Ram::new(ram_banks))
        } else {
            None
        };
        Ok(Cartridge {
            title,
            manufacture,
            new_licensee,
            cartridge_type,
            destination,
            old_licensee,
            mask_rom_version: content[0x14C],
            cgb_flag: content[0x143],
            sgb_flag: content[0x146],
            rom_bank_count: rom_banks,
            ram_bank_count: ram_banks,
            header_checksum,
            global_checksum,
            bank0: Some(bank0),
            bank1: Some(bank1),
            ram,
        })
    }

    pub fn title(&self) -> (r: &String)
        ensures
            r@ == self@.title,
    {
        &self.title
    }

    pub fn manufacturer(&self) -> (r: &String)
        ensures
            r@ == self@.manufacturer,
    {
        &self.manufacture
    }

    pub fn new_licensee(&self) -> (r: NewLicensee)
        ensures
            r == self@.new_licensee,
    {
        self.new_licensee
    }

    pub fn old_licensee(&self) -> (r: OldLicensee)
        ensures
            r == self@.old_licensee,
    {
        self.old_licensee
    }

    pub fn destination(&self) -> (r: Destination)
        ensures
            r == self@.destination,
    {
        self.destination
    }

    pub fn cartridge_type(&self) -> (r: CartridgeType)
        ensures
            r == self@.cartridge_type,
    {
        self.cartridge_type
    }

    pub fn cgb_flag(&self) -> (r: u8)
        ensures
            r == self@.cgb_flag,
    {
        self.cgb_flag
    }

    pub fn sgb_flag(&self) -> (r: u8)
        ensures
            r == self@.sgb_flag,
    {
        self.sgb_flag
    }

    pub fn mask_rom_version(&self) -> (r: u8)
        ensures
            r == self@.mask_rom_version,
    {
        self.mask_rom_version
    }

    pub fn rom_bank_count(&self) -> (r: usize)
        ensures
            r == self@.rom_bank_count,
    {
        self.rom_bank_count
    }

    pub fn ram_bank_count(&self) -> (r: usize)
        ensures
            r == self@.ram_bank_count,
    {
        self.ram_bank_count
    }

    pub fn header_checksum(&self) -> (r: u8)
        ensures
            r == self@.header_checksum,
    {
        self.header_checksum
    }

    pub fn global_checksum(&self) -> (r: u16)
        ensures
            r == self@.global_checksum,
    {
        self.global_checksum
    }

    /// Hands over the fixed low ROM bank; it can be taken once.
    pub fn take_bank0(&mut self) -> (r: Rom<0x4000>)
        requires
            old(self).wf(),
            old(self)@.bank0 is Some,
        ensures
            final(self).wf(),
            r.wf(),
            r@ == old(self)@.bank0.unwrap(),
            final(self)@ == (CartridgeModel { bank0: None, ..old(self)@ }),
    {
        self.bank0.take().unwrap()
    }

    /// Hands over the switchable high ROM banks; they can be taken once.
    pub fn take_bank1(&mut self) -> (r: Rom<0x4000>)
        requires
            old(self).wf(),
            old(self)@.bank1 is Some,
        ensures
            final(self).wf(),
            r.wf(),
            r@ == old(self)@.bank1.unwrap(),
            final(self)@ == (CartridgeModel { bank1: None, ..old(self)@ }),
    {
        self.bank1.take().unwrap()
    }

    /// Hands over the cartridge RAM, if there is any and it was not taken yet.
    pub fn take_ram(&mut self) -> (r: Option<Ram<0x2000>>)
        requires
            old(self).wf(),
        ensures
            final(self).wf(),
            r matches Some(ram) ==> ram.wf(),
            match r { Some(ram) => Some(ram@), None => None } == old(self)@.ram,
            final(self)@ == (CartridgeModel { ram: None, ..old(self)@ }),
    {
        self.ram.take()
    }
}

} // verus!
