//! The chip's registers: their names and addresses, and the bit-packed value
//! of each with its named fields.
//!
//! A field is specified by division and remainder on the register byte and
//! computed by shift and mask. A flag is one bit: what holds of writing and
//! reading single bits is stated in [`crate::bits`].

use crate::bits::{bit_of, get_bit, pack, packed, set_bit, unpack, unpacked, with_bit};
use crate::PIPES_COUNT;
use vstd::prelude::*;

verus! {

/// The registers that the driver reads or writes.
#[derive(Clone, Copy, Debug, PartialEq, Eq)]
pub enum Register {
    Config,
    EnAa,
    EnRxaddr,
    SetupAw,
    SetupRetr,
    RfCh,
    RfSetup,
    Status,
    RxAddrP0,
    RxAddrP1,
    RxAddrP2,
    RxAddrP3,
    RxAddrP4,
    RxAddrP5,
    TxAddr,
    RxPwP0,
    RxPwP1,
    RxPwP2,
    RxPwP3,
    RxPwP4,
    RxPwP5,
    FifoStatus,
    Dynpd,
    Feature,
}

impl Register {
    /// The register's address in the chip's register map.
    pub open spec fn spec_addr(self) -> u8 {
        match self {
            Register::Config => 0x00,
            Register::EnAa => 0x01,
            Register::EnRxaddr => 0x02,
            Register::SetupAw => 0x03,
            Register::SetupRetr => 0x04,
            Register::RfCh => 0x05,
            Register::RfSetup => 0x06,
            Register::Status => 0x07,
            Register::RxAddrP0 => 0x0A,
            Register::RxAddrP1 => 0x0B,
            Register::RxAddrP2 => 0x0C,
            Register::RxAddrP3 => 0x0D,
            Register::RxAddrP4 => 0x0E,
            Register::RxAddrP5 => 0x0F,
            Register::TxAddr => 0x10,
            Register::RxPwP0 => 0x11,
            Register::RxPwP1 => 0x12,
            Register::RxPwP2 => 0x13,
            Register::RxPwP3 => 0x14,
            Register::RxPwP4 => 0x15,
            Register::RxPwP5 => 0x16,
            Register::FifoStatus => 0x17,
            Register::Dynpd => 0x1C,
            Register::Feature => 0x1D,
        }
    }

    /// The register's address in the chip's register map.
    #[verifier::when_used_as_spec(spec_addr)]
    pub fn addr(self) -> (addr: u8)
        ensures
            addr == self.spec_addr(),
    {
        match self {
            Register::Config => 0x00,
            Register::EnAa => 0x01,
            Register::EnRxaddr => 0x02,
            Register::SetupAw => 0x03,
            Register::SetupRetr => 0x04,
            Register::RfCh => 0x05,
            Register::RfSetup => 0x06,
            Register::Status => 0x07,
            Register::RxAddrP0 => 0x0A,
            Register::RxAddrP1 => 0x0B,
            Register::RxAddrP2 => 0x0C,
            Register::RxAddrP3 => 0x0D,
            Register::RxAddrP4 => 0x0E,
            Register::RxAddrP5 => 0x0F,
            Register::TxAddr => 0x10,
            Register::RxPwP0 => 0x11,
            Register::RxPwP1 => 0x12,
            Register::RxPwP2 => 0x13,
            Register::RxPwP3 => 0x14,
            Register::RxPwP4 => 0x15,
            Register::RxPwP5 => 0x16,
            Register::FifoStatus => 0x17,
            Register::Dynpd => 0x1C,
            Register::Feature => 0x1D,
        }
    }

    /// The receive address register of pipe `pipe`.
    pub open spec fn spec_rx_addr(pipe: usize) -> Register {
        if pipe == 0 {
            Register::RxAddrP0
        } else if pipe == 1 {
            Register::RxAddrP1
        } else if pipe == 2 {
            Register::RxAddrP2
        } else if pipe == 3 {
            Register::RxAddrP3
        } else if pipe == 4 {
            Register::RxAddrP4
        } else {
            Register::RxAddrP5
        }
    }

    /// The receive address register of pipe `pipe`.
    #[verifier::when_used_as_spec(spec_rx_addr)]
    pub fn rx_addr(pipe: usize) -> (register: Register)
        requires
            pipe < PIPES_COUNT,
        ensures
            register == Register::spec_rx_addr(pipe),
            register.addr() == 0x0A + pipe,
    {
        match pipe {
            0 => Register::RxAddrP0,
            1 => Register::RxAddrP1,
            2 => Register::RxAddrP2,
            3 => Register::RxAddrP3,
            4 => Register::RxAddrP4,
            _ => Register::RxAddrP5,
        }
    }

    /// The static payload width register of pipe `pipe`.
    pub open spec fn spec_rx_pw(pipe: usize) -> Register {
        if pipe == 0 {
            Register::RxPwP0
        } else if pipe == 1 {
            Register::RxPwP1
        } else if pipe == 2 {
            Register::RxPwP2
        } else if pipe == 3 {
            Register::RxPwP3
        } else if pipe == 4 {
            Register::RxPwP4
        } else {
            Register::RxPwP5
        }
    }

    /// The static payload width register of pipe `pipe`.
    #[verifier::when_used_as_spec(spec_rx_pw)]
    pub fn rx_pw(pipe: usize) -> (register: Register)
        requires
            pipe < PIPES_COUNT,
        ensures
            register == Register::spec_rx_pw(pipe),
            register.addr() == 0x11 + pipe,
    {
        match pipe {
            0 => Register::RxPwP0,
            1 => Register::RxPwP1,
            2 => Register::RxPwP2,
            3 => Register::RxPwP3,
            4 => Register::RxPwP4,
            _ => Register::RxPwP5,
        }
    }
}

/// CONFIG: interrupt masks, CRC, power and primary role.
#[derive(Clone, Copy, Debug, PartialEq, Eq)]
pub struct Config(pub u8);

impl Config {
    /// Whether the data-ready interrupt is kept off the IRQ line.
    pub open spec fn spec_mask_rx_dr(&self) -> bool {
        bit_of(self.0, 6)
    }

    /// Whether the data-ready interrupt is kept off the IRQ line.
    #[verifier::when_used_as_spec(spec_mask_rx_dr)]
    pub fn mask_rx_dr(&self) -> (on: bool)
        ensures
            on == self.mask_rx_dr(),
    {
        get_bit(self.0, 6)
    }

    /// This value with `mask_rx_dr` set to `on` and all else as it is.
    pub open spec fn with_mask_rx_dr(self, on: bool) -> Self {
        Self(with_bit(self.0, 6, on))
    }

    /// Sets `mask_rx_dr` and leaves every other bit as it is.
    pub fn set_mask_rx_dr(&mut self, on: bool)
        ensures
            *final(self) == old(self).with_mask_rx_dr(on),
    {
        self.0 = set_bit(self.0, 6, on);
    }

    /// Whether the data-sent interrupt is kept off the IRQ line.
    pub open spec fn spec_mask_tx_ds(&self) -> bool {
        bit_of(self.0, 5)
    }

    /// Whether the data-sent interrupt is kept off the IRQ line.
    #[verifier::when_used_as_spec(spec_mask_tx_ds)]
    pub fn mask_tx_ds(&self) -> (on: bool)
        ensures
            on == self.mask_tx_ds(),
    {
        get_bit(self.0, 5)
    }

    /// This value with `mask_tx_ds` set to `on` and all else as it is.
    pub open spec fn with_mask_tx_ds(self, on: bool) -> Self {
        Self(with_bit(self.0, 5, on))
    }

    /// Sets `mask_tx_ds` and leaves every other bit as it is.
    pub fn set_mask_tx_ds(&mut self, on: bool)
        ensures
            *final(self) == old(self).with_mask_tx_ds(on),
    {
        self.0 = set_bit(self.0, 5, on);
    }

    /// Whether the retransmit-limit interrupt is kept off the IRQ line.
    pub open spec fn spec_mask_max_rt(&self) -> bool {
        bit_of(self.0, 4)
    }

    /// Whether the retransmit-limit interrupt is kept off the IRQ line.
    #[verifier::when_used_as_spec(spec_mask_max_rt)]
    pub fn mask_max_rt(&self) -> (on: bool)
        ensures
            on == self.mask_max_rt(),
    {
        get_bit(self.0, 4)
    }

    /// This value with `mask_max_rt` set to `on` and all else as it is.
    pub open spec fn with_mask_max_rt(self, on: bool) -> Self {
        Self(with_bit(self.0, 4, on))
    }

    /// Sets `mask_max_rt` and leaves every other bit as it is.
    pub fn set_mask_max_rt(&mut self, on: bool)
        ensures
            *final(self) == old(self).with_mask_max_rt(on),
    {
        self.0 = set_bit(self.0, 4, on);
    }

    /// Whether a CRC is generated and checked.
    pub open spec fn spec_en_crc(&self) -> bool {
        bit_of(self.0, 3)
    }

    /// Whether a CRC is generated and checked.
    #[verifier::when_used_as_spec(spec_en_crc)]
    pub fn en_crc(&self) -> (on: bool)
        ensures
            on == self.en_crc(),
    {
        get_bit(self.0, 3)
    }

    /// This value with `en_crc` set to `on` and all else as it is.
    pub open spec fn with_en_crc(self, on: bool) -> Self {
        Self(with_bit(self.0, 3, on))
    }

    /// Sets `en_crc` and leaves every other bit as it is.
    pub fn set_en_crc(&mut self, on: bool)
        ensures
            *final(self) == old(self).with_en_crc(on),
    {
        self.0 = set_bit(self.0, 3, on);
    }

    /// Whether the CRC has two bytes rather than one.
    pub open spec fn spec_crco(&self) -> bool {
        bit_of(self.0, 2)
    }

    /// Whether the CRC has two bytes rather than one.
    #[verifier::when_used_as_spec(spec_crco)]
    pub fn crco(&self) -> (on: bool)
        ensures
            on == self.crco(),
    {
        get_bit(self.0, 2)
    }

    /// This value with `crco` set to `on` and all else as it is.
    pub open spec fn with_crco(self, on: bool) -> Self {
        Self(with_bit(self.0, 2, on))
    }

    /// Sets `crco` and leaves every other bit as it is.
    pub fn set_crco(&mut self, on: bool)
        ensures
            *final(self) == old(self).with_crco(on),
    {
        self.0 = set_bit(self.0, 2, on);
    }

    /// Whether the chip is powered up.
    pub open spec fn spec_pwr_up(&self) -> bool {
        bit_of(self.0, 1)
    }

    /// Whether the chip is powered up.
    #[verifier::when_used_as_spec(spec_pwr_up)]
    pub fn pwr_up(&self) -> (on: bool)
        ensures
            on == self.pwr_up(),
    {
        get_bit(self.0, 1)
    }

    /// This value with `pwr_up` set to `on` and all else as it is.
    pub open spec fn with_pwr_up(self, on: bool) -> Self {
        Self(with_bit(self.0, 1, on))
    }

    /// Sets `pwr_up` and leaves every other bit as it is.
    pub fn set_pwr_up(&mut self, on: bool)
        ensures
            *final(self) == old(self).with_pwr_up(on),
    {
        self.0 = set_bit(self.0, 1, on);
    }

    /// Whether the chip is the primary receiver rather than the transmitter.
    pub open spec fn spec_prim_rx(&self) -> bool {
        bit_of(self.0, 0)
    }

    /// Whether the chip is the primary receiver rather than the transmitter.
    #[verifier::when_used_as_spec(spec_prim_rx)]
    pub fn prim_rx(&self) -> (on: bool)
        ensures
            on == self.prim_rx(),
    {
        get_bit(self.0, 0)
    }

    /// This value with `prim_rx` set to `on` and all else as it is.
    pub open spec fn with_prim_rx(self, on: bool) -> Self {
        Self(with_bit(self.0, 0, on))
    }

    /// Sets `prim_rx` and leaves every other bit as it is.
    pub fn set_prim_rx(&mut self, on: bool)
        ensures
            *final(self) == old(self).with_prim_rx(on),
    {
        self.0 = set_bit(self.0, 0, on);
    }
}

/// EN_AA: automatic acknowledgement, one bit per pipe.
#[derive(Clone, Copy, Debug, PartialEq, Eq)]
pub struct EnAa(pub u8);

impl EnAa {
    /// The register value that holds `bools`, pipe `i` in bit `i`.
    pub fn from_bools(bools: &[bool; PIPES_COUNT]) -> (register: Self)
        ensures
            register.0 == packed(bools@),
    {
        Self(pack(bools))
    }

    /// Whether each pipe acknowledges automatically, pipe by pipe.
    pub fn to_bools(&self) -> (bools: [bool; PIPES_COUNT])
        ensures
            bools@ == unpacked(self.0),
    {
        unpack(self.0)
    }
}

/// EN_RXADDR: enabled receive pipes, one bit per pipe.
#[derive(Clone, Copy, Debug, PartialEq, Eq)]
pub struct EnRxaddr(pub u8);

impl EnRxaddr {
    /// The register value that holds `bools`, pipe `i` in bit `i`.
    pub fn from_bools(bools: &[bool; PIPES_COUNT]) -> (register: Self)
        ensures
            register.0 == packed(bools@),
    {
        Self(pack(bools))
    }

    /// Whether each receive pipe is enabled, pipe by pipe.
    pub fn to_bools(&self) -> (bools: [bool; PIPES_COUNT])
        ensures
            bools@ == unpacked(self.0),
    {
        unpack(self.0)
    }
}

/// SETUP_AW: the address width.
#[derive(Clone, Copy, Debug, PartialEq, Eq)]
pub struct SetupAw(pub u8);

impl SetupAw {
    /// The raw two-bit address width field.
    pub open spec fn spec_aw(&self) -> u8 {
        (self.0 % 4) as u8
    }

    /// The raw two-bit address width field.
    #[verifier::when_used_as_spec(spec_aw)]
    pub fn aw(&self) -> (width: u8)
        ensures
            width == self.aw(),
    {
        let byte = self.0;
        assert(byte & 0x03u8 == (byte % 4) as u8) by (bit_vector);
        byte & 0x03
    }
}

/// SETUP_RETR: automatic retransmission.
#[derive(Clone, Copy, Debug, PartialEq, Eq)]
pub struct SetupRetr(pub u8);

impl SetupRetr {
    /// The delay between retransmissions, in the chip's delay units.
    pub open spec fn spec_ard(&self) -> u8 {
        (self.0 / 16) as u8
    }

    /// The delay between retransmissions, in the chip's delay units.
    #[verifier::when_used_as_spec(spec_ard)]
    pub fn ard(&self) -> (delay: u8)
        ensures
            delay == self.ard(),
    {
        let byte = self.0;
        assert(byte >> 4u8 == (byte / 16) as u8) by (bit_vector);
        byte >> 4
    }

    /// This value with `ard` set to the low four bits of `delay` and all
    /// else as it is.
    pub open spec fn with_ard(self, delay: u8) -> Self {
        Self(((delay % 16) * 16 + self.0 % 16) as u8)
    }

    /// Sets `ard` to the low four bits of `delay` and leaves every other
    /// bit as it is.
    pub fn set_ard(&mut self, delay: u8)
        ensures
            *final(self) == old(self).with_ard(delay),
    {
        let byte = self.0;
        let changed = (byte & 0x0F) | ((delay & 0x0F) << 4);
        assert(changed == ((delay % 16) * 16 + byte % 16) as u8) by (bit_vector)
            requires
                changed == (byte & 0x0Fu8) | ((delay & 0x0Fu8) << 4u8),
        ;
        self.0 = changed;
    }

    /// The number of retransmissions before the chip gives up.
    pub open spec fn spec_arc(&self) -> u8 {
        (self.0 % 16) as u8
    }

    /// The number of retransmissions before the chip gives up.
    #[verifier::when_used_as_spec(spec_arc)]
    pub fn arc(&self) -> (count: u8)
        ensures
            count == self.arc(),
    {
        let byte = self.0;
        assert(byte & 0x0Fu8 == (byte % 16) as u8) by (bit_vector);
        byte & 0x0F
    }

    /// This value with `arc` set to the low four bits of `count` and all
    /// else as it is.
    pub open spec fn with_arc(self, count: u8) -> Self {
        Self((self.0 / 16 * 16 + count % 16) as u8)
    }

    /// Sets `arc` to the low four bits of `count` and leaves every other
    /// bit as it is.
    pub fn set_arc(&mut self, count: u8)
        ensures
            *final(self) == old(self).with_arc(count),
    {
        let byte = self.0;
        let changed = (byte & 0xF0) | (count & 0x0F);
        assert(changed == (byte / 16 * 16 + count % 16) as u8) by (bit_vector)
            requires
                changed == (byte & 0xF0u8) | (count & 0x0Fu8),
        ;
        self.0 = changed;
    }
}

/// RF_CH: the frequency channel.
#[derive(Clone, Copy, Debug, PartialEq, Eq)]
pub struct RfCh(pub u8);

impl RfCh {
    /// The frequency channel.
    pub open spec fn spec_rf_ch(&self) -> u8 {
        (self.0 % 128) as u8
    }

    /// The frequency channel.
    #[verifier::when_used_as_spec(spec_rf_ch)]
    pub fn rf_ch(&self) -> (channel: u8)
        ensures
            channel == self.rf_ch(),
    {
        let byte = self.0;
        assert(byte & 0x7Fu8 == (byte % 128) as u8) by (bit_vector);
        byte & 0x7F
    }

    /// This value with `rf_ch` set to the low seven bits of `channel` and all
    /// else as it is.
    pub open spec fn with_rf_ch(self, channel: u8) -> Self {
        Self((self.0 / 128 * 128 + channel % 128) as u8)
    }

    /// Sets `rf_ch` to the low seven bits of `channel` and leaves every other
    /// bit as it is.
    pub fn set_rf_ch(&mut self, channel: u8)
        ensures
            *final(self) == old(self).with_rf_ch(channel),
    {
        let byte = self.0;
        let changed = (byte & 0x80) | (channel & 0x7F);
        assert(changed == (byte / 128 * 128 + channel % 128) as u8) by (bit_vector)
            requires
                changed == (byte & 0x80u8) | (channel & 0x7Fu8),
        ;
        self.0 = changed;
    }
}

/// RF_SETUP: air data rate and output power.
#[derive(Clone, Copy, Debug, PartialEq, Eq)]
pub struct RfSetup(pub u8);

impl RfSetup {
    /// The low bit of the data rate: set for 250 Kbps.
    pub open spec fn spec_rf_dr_low(&self) -> bool {
        bit_of(self.0, 5)
    }

    /// The low bit of the data rate: set for 250 Kbps.
    #[verifier::when_used_as_spec(spec_rf_dr_low)]
    pub fn rf_dr_low(&self) -> (on: bool)
        ensures
            on == self.rf_dr_low(),
    {
        get_bit(self.0, 5)
    }

    /// This value with `rf_dr_low` set to `on` and all else as it is.
    pub open spec fn with_rf_dr_low(self, on: bool) -> Self {
        Self(with_bit(self.0, 5, on))
    }

    /// Sets `rf_dr_low` and leaves every other bit as it is.
    pub fn set_rf_dr_low(&mut self, on: bool)
        ensures
            *final(self) == old(self).with_rf_dr_low(on),
    {
        self.0 = set_bit(self.0, 5, on);
    }

    /// The high bit of the data rate: set for 2 Mbps.
    pub open spec fn spec_rf_dr_high(&self) -> bool {
        bit_of(self.0, 3)
    }

    /// The high bit of the data rate: set for 2 Mbps.
    #[verifier::when_used_as_spec(spec_rf_dr_high)]
    pub fn rf_dr_high(&self) -> (on: bool)
        ensures
            on == self.rf_dr_high(),
    {
        get_bit(self.0, 3)
    }

    /// This value with `rf_dr_high` set to `on` and all else as it is.
    pub open spec fn with_rf_dr_high(self, on: bool) -> Self {
        Self(with_bit(self.0, 3, on))
    }

    /// Sets `rf_dr_high` and leaves every other bit as it is.
    pub fn set_rf_dr_high(&mut self, on: bool)
        ensures
            *final(self) == old(self).with_rf_dr_high(on),
    {
        self.0 = set_bit(self.0, 3, on);
    }

    /// The output power level.
    pub open spec fn spec_rf_pwr(&self) -> u8 {
        (self.0 / 2 % 4) as u8
    }

    /// The output power level.
    #[verifier::when_used_as_spec(spec_rf_pwr)]
    pub fn rf_pwr(&self) -> (power: u8)
        ensures
            power == self.rf_pwr(),
    {
        let byte = self.0;
        assert((byte >> 1u8) & 0x03u8 == (byte / 2 % 4) as u8) by (bit_vector);
        (byte >> 1) & 0x03
    }

    /// This value with `rf_pwr` set to the low two bits of `power` and all
    /// else as it is.
    pub open spec fn with_rf_pwr(self, power: u8) -> Self {
        Self((self.0 - (self.0 / 2 % 4) * 2 + (power % 4) * 2) as u8)
    }

    /// Sets `rf_pwr` to the low two bits of `power` and leaves every other
    /// bit as it is.
    pub fn set_rf_pwr(&mut self, power: u8)
        ensures
            *final(self) == old(self).with_rf_pwr(power),
    {
        let byte = self.0;
        let changed = (byte & 0xF9) | ((power & 0x03) << 1);
        assert(changed == (byte - (byte / 2 % 4) * 2 + (power % 4) * 2) as u8) by (bit_vector)
            requires
                changed == (byte & 0xF9u8) | ((power & 0x03u8) << 1u8),
        ;
        self.0 = changed;
    }
}

/// STATUS: the byte that every bus transaction returns.
#[derive(Clone, Copy, Debug, PartialEq, Eq)]
pub struct Status(pub u8);

impl Status {
    /// Whether received data is ready.
    pub open spec fn spec_rx_dr(&self) -> bool {
        bit_of(self.0, 6)
    }

    /// Whether received data is ready.
    #[verifier::when_used_as_spec(spec_rx_dr)]
    pub fn rx_dr(&self) -> (on: bool)
        ensures
            on == self.rx_dr(),
    {
        get_bit(self.0, 6)
    }

    /// This value with `rx_dr` set to `on` and all else as it is.
    pub open spec fn with_rx_dr(self, on: bool) -> Self {
        Self(with_bit(self.0, 6, on))
    }

    /// Sets `rx_dr` and leaves every other bit as it is.
    pub fn set_rx_dr(&mut self, on: bool)
        ensures
            *final(self) == old(self).with_rx_dr(on),
    {
        self.0 = set_bit(self.0, 6, on);
    }

    /// Whether data was sent.
    pub open spec fn spec_tx_ds(&self) -> bool {
        bit_of(self.0, 5)
    }

    /// Whether data was sent.
    #[verifier::when_used_as_spec(spec_tx_ds)]
    pub fn tx_ds(&self) -> (on: bool)
        ensures
            on == self.tx_ds(),
    {
        get_bit(self.0, 5)
    }

    /// This value with `tx_ds` set to `on` and all else as it is.
    pub open spec fn with_tx_ds(self, on: bool) -> Self {
        Self(with_bit(self.0, 5, on))
    }

    /// Sets `tx_ds` and leaves every other bit as it is.
    pub fn set_tx_ds(&mut self, on: bool)
        ensures
            *final(self) == old(self).with_tx_ds(on),
    {
        self.0 = set_bit(self.0, 5, on);
    }

    /// Whether the retransmit limit was reached.
    pub open spec fn spec_max_rt(&self) -> bool {
        bit_of(self.0, 4)
    }

    /// Whether the retransmit limit was reached.
    #[verifier::when_used_as_spec(spec_max_rt)]
    pub fn max_rt(&self) -> (on: bool)
        ensures
            on == self.max_rt(),
    {
        get_bit(self.0, 4)
    }

    /// This value with `max_rt` set to `on` and all else as it is.
    pub open spec fn with_max_rt(self, on: bool) -> Self {
        Self(with_bit(self.0, 4, on))
    }

    /// Sets `max_rt` and leaves every other bit as it is.
    pub fn set_max_rt(&mut self, on: bool)
        ensures
            *final(self) == old(self).with_max_rt(on),
    {
        self.0 = set_bit(self.0, 4, on);
    }

    /// The pipe of the payload at the head of the receive FIFO.
    pub open spec fn spec_rx_p_no(&self) -> u8 {
        (self.0 / 2 % 8) as u8
    }

    /// The pipe of the payload at the head of the receive FIFO.
    #[verifier::when_used_as_spec(spec_rx_p_no)]
    pub fn rx_p_no(&self) -> (pipe: u8)
        ensures
            pipe == self.rx_p_no(),
    {
        let byte = self.0;
        assert((byte >> 1u8) & 0x07u8 == (byte / 2 % 8) as u8) by (bit_vector);
        (byte >> 1) & 0x07
    }
}

/// RX_PW_P0 to RX_PW_P5: the static payload width of one pipe.
#[derive(Clone, Copy, Debug, PartialEq, Eq)]
pub struct RxPw(pub u8);

impl RxPw {
    /// The static payload width in bytes.
    pub open spec fn spec_width(&self) -> u8 {
        (self.0 % 64) as u8
    }

    /// The static payload width in bytes.
    #[verifier::when_used_as_spec(spec_width)]
    pub fn width(&self) -> (width: u8)
        ensures
            width == self.width(),
    {
        let byte = self.0;
        assert(byte & 0x3Fu8 == (byte % 64) as u8) by (bit_vector);
        byte & 0x3F
    }

    /// This value with `width` set to the low six bits of `width` and all
    /// else as it is.
    pub open spec fn with_width(self, width: u8) -> Self {
        Self((self.0 / 64 * 64 + width % 64) as u8)
    }

    /// Sets `width` to the low six bits of `width` and leaves every other
    /// bit as it is.
    pub fn set_width(&mut self, width: u8)
        ensures
            *final(self) == old(self).with_width(width),
    {
        let byte = self.0;
        let changed = (byte & 0xC0) | (width & 0x3F);
        assert(changed == (byte / 64 * 64 + width % 64) as u8) by (bit_vector)
            requires
                changed == (byte & 0xC0u8) | (width & 0x3Fu8),
        ;
        self.0 = changed;
    }
}

/// FIFO_STATUS: the fill state of both FIFOs.
#[derive(Clone, Copy, Debug, PartialEq, Eq)]
pub struct FifoStatus(pub u8);

impl FifoStatus {
    /// Whether the transmit FIFO is full.
    pub open spec fn spec_tx_full(&self) -> bool {
        bit_of(self.0, 5)
    }

    /// Whether the transmit FIFO is full.
    #[verifier::when_used_as_spec(spec_tx_full)]
    pub fn tx_full(&self) -> (on: bool)
        ensures
            on == self.tx_full(),
    {
        get_bit(self.0, 5)
    }

    /// Whether the receive FIFO is empty.
    pub open spec fn spec_rx_empty(&self) -> bool {
        bit_of(self.0, 0)
    }

    /// Whether the receive FIFO is empty.
    #[verifier::when_used_as_spec(spec_rx_empty)]
    pub fn rx_empty(&self) -> (on: bool)
        ensures
            on == self.rx_empty(),
    {
        get_bit(self.0, 0)
    }
}

/// DYNPD: dynamic payload length, one bit per pipe.
#[derive(Clone, Copy, Debug, PartialEq, Eq)]
pub struct Dynpd(pub u8);

impl Dynpd {
    /// The register value that holds `bools`, pipe `i` in bit `i`.
    pub fn from_bools(bools: &[bool; PIPES_COUNT]) -> (register: Self)
        ensures
            register.0 == packed(bools@),
    {
        Self(pack(bools))
    }

    /// Whether each pipe takes payloads of dynamic length, pipe by pipe.
    pub fn to_bools(&self) -> (bools: [bool; PIPES_COUNT])
        ensures
            bools@ == unpacked(self.0),
    {
        unpack(self.0)
    }
}

/// FEATURE: optional protocol features.
#[derive(Clone, Copy, Debug, PartialEq, Eq)]
pub struct Feature(pub u8);

impl Feature {
    /// Whether payloads of dynamic length are enabled.
    pub open spec fn spec_en_dpl(&self) -> bool {
        bit_of(self.0, 2)
    }

    /// Whether payloads of dynamic length are enabled.
    #[verifier::when_used_as_spec(spec_en_dpl)]
    pub fn en_dpl(&self) -> (on: bool)
        ensures
            on == self.en_dpl(),
    {
        get_bit(self.0, 2)
    }

    /// This value with `en_dpl` set to `on` and all else as it is.
    pub open spec fn with_en_dpl(self, on: bool) -> Self {
        Self(with_bit(self.0, 2, on))
    }

    /// Sets `en_dpl` and leaves every other bit as it is.
    pub fn set_en_dpl(&mut self, on: bool)
        ensures
            *final(self) == old(self).with_en_dpl(on),
    {
        self.0 = set_bit(self.0, 2, on);
    }

    /// Whether acknowledgements may carry a payload.
    pub open spec fn spec_en_ack_pay(&self) -> bool {
        bit_of(self.0, 1)
    }

    /// Whether acknowledgements may carry a payload.
    #[verifier::when_used_as_spec(spec_en_ack_pay)]
    pub fn en_ack_pay(&self) -> (on: bool)
        ensures
            on == self.en_ack_pay(),
    {
        get_bit(self.0, 1)
    }

    /// This value with `en_ack_pay` set to `on` and all else as it is.
    pub open spec fn with_en_ack_pay(self, on: bool) -> Self {
        Self(with_bit(self.0, 1, on))
    }

    /// Sets `en_ack_pay` and leaves every other bit as it is.
    pub fn set_en_ack_pay(&mut self, on: bool)
        ensures
            *final(self) == old(self).with_en_ack_pay(on),
    {
        self.0 = set_bit(self.0, 1, on);
    }
}

/// No two registers share an address.
pub proof fn lemma_addresses_differ(one: Register, other: Register)
    requires
        one != other,
    ensures
        one.addr() != other.addr(),
{
}

/// Each pipe has an address register and a width register of its own.
pub proof fn lemma_pipes_have_their_own_registers(pipe: usize, other: usize)
    requires
        pipe < PIPES_COUNT,
        other < PIPES_COUNT,
        pipe != other,
    ensures
        Register::rx_addr(pipe) != Register::rx_addr(other),
        Register::rx_pw(pipe) != Register::rx_pw(other),
{
}

/// A field of SETUP_RETR that was set is read back, cut to four bits, and
/// the other field is as it was.
pub proof fn lemma_setup_retr_fields(register: SetupRetr, value: u8)
    ensures
        register.with_ard(value).ard() == value % 16,
        register.with_ard(value).arc() == register.arc(),
        register.with_arc(value).arc() == value % 16,
        register.with_arc(value).ard() == register.ard(),
{
}

/// A channel that was set is read back, cut to seven bits, and the high bit
/// of RF_CH is as it was.
pub proof fn lemma_rf_ch_field(register: RfCh, channel: u8)
    ensures
        register.with_rf_ch(channel).rf_ch() == channel % 128,
        bit_of(register.with_rf_ch(channel).0, 7) == bit_of(register.0, 7),
{
}

/// A power level that was set is read back, cut to two bits, and every
/// other bit of RF_SETUP is as it was.
pub proof fn lemma_rf_pwr_field(register: RfSetup, power: u8, n: u8)
    requires
        n < 8,
        n != 1,
        n != 2,
    ensures
        register.with_rf_pwr(power).rf_pwr() == power % 4,
        bit_of(register.with_rf_pwr(power).0, n) == bit_of(register.0, n),
{
    let byte = register.0;
    let changed = register.with_rf_pwr(power).0;
    assert(changed == ((byte & 0xF9u8) | ((power & 0x03u8) << 1u8))) by (bit_vector)
        requires
            changed == (byte - (byte / 2 % 4) * 2 + (power % 4) * 2) as u8,
    ;
    assert(bit_of(changed, n) == bit_of(byte, n)) by (bit_vector)
        requires
            changed == ((byte & 0xF9u8) | ((power & 0x03u8) << 1u8)),
            n < 8,
            n != 1,
            n != 2,
    ;
}

/// A static width that was set is read back, cut to six bits, and the two
/// high bits of the register are as they were.
pub proof fn lemma_rx_pw_field(register: RxPw, width: u8)
    ensures
        register.with_width(width).width() == width % 64,
        register.with_width(width).0 / 64 == register.0 / 64,
{
}

} // verus!
