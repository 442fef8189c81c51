use embedded_nrf24l01::config::{
    auto_ack, auto_retransmit, rf_setup, Configuration, CrcMode, DataRate, Interrupts,
};
use embedded_nrf24l01::device::{Command, Device, History};
use embedded_nrf24l01::ptx::PtxMode;
use embedded_nrf24l01::registers::{
    Config, Dynpd, EnAa, EnRxaddr, Feature, FifoStatus, Register, RfCh, RfSetup, RxPw, SetupAw,
    SetupRetr, Status,
};
use embedded_nrf24l01::rx::RxMode;
use embedded_nrf24l01::rxtx::{Received, SendReceiveResult};
use embedded_nrf24l01::standby::StandbyMode;
use embedded_nrf24l01::tx::TxMode;
use embedded_nrf24l01::PIPES_COUNT;
use std::cell::RefCell;
use std::rc::Rc;

/// What was asked of the simulated chip, in order.
#[derive(Debug, Clone, PartialEq, Eq)]
enum Op {
    Read(Register),
    Write(Register, u8),
    WriteAddress(Register, Vec<u8>),
    Command(Command),
    ReadWidth,
    ReadPayload(u8),
    WritePayload(Vec<u8>),
    ChipEnable(bool),
}

#[derive(Debug, Clone, PartialEq, Eq)]
struct BusError(usize);

/// The inside of a simulated chip: a register file, two FIFOs, and a bus
/// that can be made to fail at a chosen transaction.
#[derive(Debug)]
struct Inside {
    registers: [u8; 0x1E],
    addresses: [Vec<u8>; 0x1E],
    rx_fifo: Vec<Vec<u8>>,
    tx_fifo: Vec<Vec<u8>>,
    chip_enable: bool,
    log: Vec<Op>,
    transactions: usize,
    fail_at: Option<usize>,
}

/// A simulated chip. A clone is a second handle on the same chip: a test
/// gives one to the driver and keeps the other to look inside.
#[derive(Debug, Clone)]
struct Chip(Rc<RefCell<Inside>>);

impl Chip {
    fn new() -> Chip {
        let mut registers = [0; 0x1E];
        registers[Register::Config.addr() as usize] = 0x08;
        registers[Register::Status.addr() as usize] = 0x0E;
        registers[Register::FifoStatus.addr() as usize] = 0x11;
        Chip(Rc::new(RefCell::new(Inside {
            registers,
            addresses: std::array::from_fn(|_| Vec::new()),
            rx_fifo: Vec::new(),
            tx_fifo: Vec::new(),
            chip_enable: false,
            log: Vec::new(),
            transactions: 0,
            fail_at: None,
        })))
    }

    fn failing_at(transaction: usize) -> Chip {
        let chip = Chip::new();
        chip.fail_at(transaction);
        chip
    }

    fn same_as(&self, other: &Chip) -> bool {
        Rc::ptr_eq(&self.0, &other.0)
    }

    fn get(&self, register: Register) -> u8 {
        self.0.borrow().registers[register.addr() as usize]
    }

    fn set(&self, register: Register, value: u8) {
        self.0.borrow_mut().registers[register.addr() as usize] = value;
    }

    fn address(&self, register: Register) -> Vec<u8> {
        self.0.borrow().addresses[register.addr() as usize].clone()
    }

    fn log(&self) -> Vec<Op> {
        self.0.borrow().log.clone()
    }

    fn clear_log(&self) {
        self.0.borrow_mut().log.clear();
    }

    fn transactions(&self) -> usize {
        self.0.borrow().transactions
    }

    /// Makes the transaction with this number fail, counted from the first
    /// that the chip ever saw.
    fn fail_at(&self, transaction: usize) {
        self.0.borrow_mut().fail_at = Some(transaction);
    }

    /// Makes the transaction fail that comes after `skipped` more.
    fn fail_after(&self, skipped: usize) -> usize {
        let at = self.transactions() + skipped;
        self.fail_at(at);
        at
    }

    fn chip_enable(&self) -> bool {
        self.0.borrow().chip_enable
    }

    fn rx_fifo(&self) -> Vec<Vec<u8>> {
        self.0.borrow().rx_fifo.clone()
    }

    fn tx_fifo(&self) -> Vec<Vec<u8>> {
        self.0.borrow().tx_fifo.clone()
    }

    fn arrive(&self, payload: &[u8]) {
        self.0.borrow_mut().rx_fifo.push(payload.to_vec());
    }

    fn queue(&self, payload: &[u8]) {
        self.0.borrow_mut().tx_fifo.push(payload.to_vec());
    }

    /// Starts a transaction: fails it if it is the chosen one, else returns
    /// the status byte as it is before the request is carried out.
    fn begin(&self, op: Op) -> Result<Status, BusError> {
        let mut inside = self.0.borrow_mut();
        let number = inside.transactions;
        inside.transactions += 1;
        inside.log.push(op);
        if inside.fail_at == Some(number) {
            Err(BusError(number))
        } else {
            Ok(Status(inside.registers[Register::Status.addr() as usize]))
        }
    }
}

impl Device for Chip {
    type Error = BusError;

    fn history(&self) -> History<BusError> {
        unreachable!()
    }

    fn read_register(&mut self, register: Register) -> Result<(Status, u8), BusError> {
        let status = self.begin(Op::Read(register))?;
        Ok((status, self.get(register)))
    }

    fn write_register(&mut self, register: Register, value: u8) -> Result<Status, BusError> {
        let status = self.begin(Op::Write(register, value))?;
        if register == Register::Status {
            let kept = self.get(Register::Status) & !(value & 0x70);
            self.set(Register::Status, kept);
        } else {
            self.set(register, value);
        }
        Ok(status)
    }

    fn write_address(&mut self, register: Register, address: &[u8]) -> Result<Status, BusError> {
        let status = self.begin(Op::WriteAddress(register, address.to_vec()))?;
        self.0.borrow_mut().addresses[register.addr() as usize] = address.to_vec();
        Ok(status)
    }

    fn send_command(&mut self, command: Command) -> Result<Status, BusError> {
        let status = self.begin(Op::Command(command))?;
        match command {
            Command::FlushRx => self.0.borrow_mut().rx_fifo.clear(),
            Command::FlushTx => self.0.borrow_mut().tx_fifo.clear(),
            Command::Nop => {}
        }
        Ok(status)
    }

    fn read_rx_payload_width(&mut self) -> Result<(Status, u8), BusError> {
        let status = self.begin(Op::ReadWidth)?;
        let width = self.0.borrow().rx_fifo.first().map_or(0, |payload| payload.len() as u8);
        Ok((status, width))
    }

    fn read_rx_payload(&mut self, width: u8) -> Result<(Status, Vec<u8>), BusError> {
        let status = self.begin(Op::ReadPayload(width))?;
        let mut inside = self.0.borrow_mut();
        let mut payload = if inside.rx_fifo.is_empty() {
            Vec::new()
        } else {
            inside.rx_fifo.remove(0)
        };
        payload.resize(width as usize, 0);
        Ok((status, payload))
    }

    fn write_tx_payload(&mut self, payload: &[u8]) -> Result<Status, BusError> {
        let status = self.begin(Op::WritePayload(payload.to_vec()))?;
        self.queue(payload);
        Ok(status)
    }

    fn ce_enable(&mut self) {
        let mut inside = self.0.borrow_mut();
        inside.log.push(Op::ChipEnable(true));
        inside.chip_enable = true;
    }

    fn ce_disable(&mut self) {
        let mut inside = self.0.borrow_mut();
        inside.log.push(Op::ChipEnable(false));
        inside.chip_enable = false;
    }
}

fn powered_up(chip: &Chip) -> StandbyMode<Chip> {
    match StandbyMode::power_up(chip.clone()) {
        Ok(standby) => standby,
        Err((_, error)) => panic!("power up failed: {:?}", error),
    }
}

fn receiving(chip: &Chip) -> RxMode<Chip> {
    match powered_up(chip).rx() {
        Ok(rx) => rx,
        Err((_, error)) => panic!("entering receive mode failed: {:?}", error),
    }
}

fn transmitting(standby: StandbyMode<Chip>) -> TxMode<Chip> {
    match standby.tx() {
        Ok(tx) => tx,
        Err((_, error)) => panic!("entering transmit mode failed: {:?}", error),
    }
}

/// A chip that is powered up and in standby, and a second handle on it,
/// with an empty log.
fn fresh() -> (StandbyMode<Chip>, Chip) {
    let chip = Chip::new();
    let standby = powered_up(&chip);
    chip.clear_log();
    (standby, chip)
}

/// A chip in transceive mode, and a second handle on it, with an empty log.
fn transceiving() -> (PtxMode<Chip>, Chip) {
    let chip = Chip::new();
    let ptx = match powered_up(&chip).ptx(1, 15) {
        Ok(ptx) => ptx,
        Err((_, error)) => panic!("entering transceive mode failed: {:?}", error),
    };
    chip.clear_log();
    (ptx, chip)
}

const RATES: [DataRate; 3] = [DataRate::R250Kbps, DataRate::R1Mbps, DataRate::R2Mbps];

// Registers and their fields

#[test]
fn registers_have_their_datasheet_addresses() {
    assert_eq!(Register::Config.addr(), 0x00);
    assert_eq!(Register::EnAa.addr(), 0x01);
    assert_eq!(Register::EnRxaddr.addr(), 0x02);
    assert_eq!(Register::SetupAw.addr(), 0x03);
    assert_eq!(Register::SetupRetr.addr(), 0x04);
    assert_eq!(Register::RfCh.addr(), 0x05);
    assert_eq!(Register::RfSetup.addr(), 0x06);
    assert_eq!(Register::Status.addr(), 0x07);
    assert_eq!(Register::TxAddr.addr(), 0x10);
    assert_eq!(Register::FifoStatus.addr(), 0x17);
    assert_eq!(Register::Dynpd.addr(), 0x1C);
    assert_eq!(Register::Feature.addr(), 0x1D);
}

#[test]
fn per_pipe_registers_follow_the_pipe_number() {
    for pipe in 0..PIPES_COUNT {
        assert_eq!(Register::rx_addr(pipe).addr() as usize, 0x0A + pipe);
        assert_eq!(Register::rx_pw(pipe).addr() as usize, 0x11 + pipe);
    }
    assert_eq!(Register::rx_addr(0), Register::RxAddrP0);
    assert_eq!(Register::rx_addr(5), Register::RxAddrP5);
    assert_eq!(Register::rx_pw(0), Register::RxPwP0);
    assert_eq!(Register::rx_pw(5), Register::RxPwP5);
}

#[test]
fn config_flags_sit_at_their_bits() {
    assert!(Config(0x40).mask_rx_dr());
    assert!(Config(0x20).mask_tx_ds());
    assert!(Config(0x10).mask_max_rt());
    assert!(Config(0x08).en_crc());
    assert!(Config(0x04).crco());
    assert!(Config(0x02).pwr_up());
    assert!(Config(0x01).prim_rx());
    assert!(!Config(0xBF).mask_rx_dr());
    assert!(!Config(0xFE).prim_rx());
}

#[test]
fn setting_a_config_flag_leaves_the_other_bits() {
    for byte in 0..=255u8 {
        let mut config = Config(byte);
        config.set_pwr_up(true);
        assert_eq!(config.0, byte | 0x02);
        config.set_pwr_up(false);
        assert_eq!(config.0, byte & !0x02);
        let mut config = Config(byte);
        config.set_mask_rx_dr(true);
        config.set_prim_rx(false);
        assert_eq!(config.0, (byte | 0x40) & !0x01);
    }
}

#[test]
fn status_fields_sit_at_their_bits() {
    let status = Status(0x4A);
    assert!(status.rx_dr());
    assert!(!status.tx_ds());
    assert!(!status.max_rt());
    assert_eq!(status.rx_p_no(), 5);
    assert!(Status(0x20).tx_ds());
    assert!(Status(0x10).max_rt());
    assert_eq!(Status(0x0E).rx_p_no(), 7);
    assert_eq!(Status(0xF1).rx_p_no(), 0);
}

#[test]
fn fifo_status_flags_sit_at_their_bits() {
    assert!(FifoStatus(0x20).tx_full());
    assert!(!FifoStatus(0xDF).tx_full());
    assert!(FifoStatus(0x01).rx_empty());
    assert!(!FifoStatus(0xFE).rx_empty());
}

#[test]
fn feature_flags_sit_at_their_bits() {
    let mut feature = Feature(0x01);
    feature.set_en_dpl(true);
    assert_eq!(feature.0, 0x05);
    feature.set_en_ack_pay(true);
    assert_eq!(feature.0, 0x07);
    assert!(feature.en_dpl());
    assert!(feature.en_ack_pay());
    feature.set_en_dpl(false);
    assert_eq!(feature.0, 0x03);
}

#[test]
fn retransmit_fields_round_trip() {
    for byte in 0..=255u8 {
        let register = SetupRetr(byte);
        assert_eq!(register.ard(), byte >> 4);
        assert_eq!(register.arc(), byte & 0x0F);
        for value in 0..=255u8 {
            let mut changed = register;
            changed.set_ard(value);
            assert_eq!(changed.ard(), value % 16);
            assert_eq!(changed.arc(), register.arc());
            let mut changed = register;
            changed.set_arc(value);
            assert_eq!(changed.arc(), value % 16);
            assert_eq!(changed.ard(), register.ard());
        }
    }
}

#[test]
fn channel_field_round_trips() {
    let mut register = RfCh(0x80);
    register.set_rf_ch(76);
    assert_eq!(register.0, 0x80 | 76);
    assert_eq!(register.rf_ch(), 76);
    register.set_rf_ch(0xFF);
    assert_eq!(register.0, 0xFF);
    assert_eq!(register.rf_ch(), 127);
}

#[test]
fn power_field_round_trips() {
    for byte in 0..=255u8 {
        for power in 0..4u8 {
            let mut register = RfSetup(byte);
            register.set_rf_pwr(power);
            assert_eq!(register.rf_pwr(), power);
            assert_eq!(register.0 & !0x06, byte & !0x06);
        }
    }
    assert!(RfSetup(0x20).rf_dr_low());
    assert!(RfSetup(0x08).rf_dr_high());
}

#[test]
fn width_field_round_trips() {
    let mut register = RxPw(0);
    register.set_width(32);
    assert_eq!(register.0, 32);
    assert_eq!(register.width(), 32);
    register.set_width(0xFF);
    assert_eq!(register.0, 0x3F);
    assert_eq!(SetupAw(0xFF).aw(), 3);
    assert_eq!(SetupAw(0x01).aw(), 1);
}

#[test]
fn pipe_flags_round_trip() {
    for byte in 0..64u8 {
        let bools = EnAa(byte).to_bools();
        for pipe in 0..PIPES_COUNT {
            assert_eq!(bools[pipe], byte & (1 << pipe) != 0);
        }
        assert_eq!(EnAa::from_bools(&bools).0, byte);
        assert_eq!(Dynpd::from_bools(&bools).0, byte);
        assert_eq!(EnRxaddr::from_bools(&bools).0, byte);
        assert_eq!(Dynpd(byte).to_bools(), bools);
        assert_eq!(EnRxaddr(byte).to_bools(), bools);
    }
    assert_eq!(EnAa(0xFF).to_bools(), [true; 6]);
    assert_eq!(EnAa(0xC0).to_bools(), [false; 6]);
}

// Intents turned into register values

#[test]
fn data_rate_defaults_to_one_megabit() {
    assert_eq!(DataRate::default(), DataRate::R1Mbps);
}

#[test]
fn rf_setup_packs_rate_and_power() {
    assert_eq!(rf_setup(&DataRate::R250Kbps, 0).0, 0x20);
    assert_eq!(rf_setup(&DataRate::R1Mbps, 0).0, 0x00);
    assert_eq!(rf_setup(&DataRate::R2Mbps, 0).0, 0x08);
    assert_eq!(rf_setup(&DataRate::R2Mbps, 3).0, 0x0E);
    assert_eq!(rf_setup(&DataRate::R250Kbps, 2).0, 0x24);
}

#[test]
fn rate_bits_decode() {
    assert_eq!(DataRate::from_bits(true, false), Some(DataRate::R250Kbps));
    assert_eq!(DataRate::from_bits(false, false), Some(DataRate::R1Mbps));
    assert_eq!(DataRate::from_bits(false, true), Some(DataRate::R2Mbps));
    assert_eq!(DataRate::from_bits(true, true), None);
}

#[test]
fn auto_retransmit_packs_delay_and_count() {
    assert_eq!(auto_retransmit(0, 0).0, 0x00);
    assert_eq!(auto_retransmit(1, 15).0, 0x1F);
    assert_eq!(auto_retransmit(15, 3).0, 0xF3);
    assert_eq!(auto_retransmit(0x12, 0x34).0, 0x24);
}

#[test]
fn auto_ack_packs_the_pipes() {
    assert_eq!(auto_ack(&[true; 6]).0, 0x3F);
    assert_eq!(auto_ack(&[false; 6]).0, 0x00);
    assert_eq!(auto_ack(&[true, false, false, false, false, true]).0, 0x21);
}

#[test]
fn interrupts_come_from_the_status_byte() {
    assert_eq!(
        Interrupts::from_status(Status(0x40)),
        Interrupts { rx_dr: true, tx_ds: false, max_rt: false }
    );
    assert_eq!(
        Interrupts::from_status(Status(0x20)),
        Interrupts { rx_dr: false, tx_ds: true, max_rt: false }
    );
    assert_eq!(
        Interrupts::from_status(Status(0x10)),
        Interrupts { rx_dr: false, tx_ds: false, max_rt: true }
    );
    assert_eq!(
        Interrupts::from_status(Status(0x8F)),
        Interrupts { rx_dr: false, tx_ds: false, max_rt: false }
    );
}

#[test]
fn crc_mode_sets_both_crc_bits() {
    for byte in 0..=255u8 {
        let mut config = Config(byte);
        CrcMode::Disabled.set_config(&mut config);
        assert_eq!(config.0, byte & !0x0C);
        let mut config = Config(byte);
        CrcMode::OneByte.set_config(&mut config);
        assert_eq!(config.0, (byte & !0x0C) | 0x08);
        let mut config = Config(byte);
        CrcMode::TwoBytes.set_config(&mut config);
        assert_eq!(config.0, byte | 0x0C);
    }
}

// Configuration

#[test]
fn set_rf_reads_back_as_the_same_rate_and_power() {
    for rate in RATES {
        for power in 0..4u8 {
            let (mut standby, chip) = fresh();
            assert_eq!(standby.set_rf(&rate, power), Ok(()));
            let register = RfSetup(chip.get(Register::RfSetup));
            assert_eq!(register.rf_pwr(), power);
            assert_eq!(
                DataRate::from_bits(register.rf_dr_low(), register.rf_dr_high()),
                Some(rate)
            );
            assert_eq!(chip.log().len(), 1);
        }
    }
}

#[test]
fn set_rf_writes_the_rate_bits() {
    let (mut standby, chip) = fresh();
    assert_eq!(standby.set_rf(&DataRate::R250Kbps, 3), Ok(()));
    assert_eq!(standby.set_rf(&DataRate::R1Mbps, 3), Ok(()));
    assert_eq!(standby.set_rf(&DataRate::R2Mbps, 1), Ok(()));
    assert_eq!(
        chip.log(),
        vec![
            Op::Write(Register::RfSetup, 0x26),
            Op::Write(Register::RfSetup, 0x06),
            Op::Write(Register::RfSetup, 0x0A),
        ]
    );
}

#[test]
fn set_crc_changes_only_the_crc_bits() {
    for start in [0x00u8, 0x08, 0x0C, 0x73, 0xFF] {
        let (mut standby, chip) = fresh();
        chip.set(Register::Config, start);
        assert_eq!(standby.set_crc(CrcMode::Disabled), Ok(()));
        let config = Config(chip.get(Register::Config));
        assert!(!config.en_crc());
        assert_eq!(config.0 & !0x0C, start & !0x0C);

        assert_eq!(standby.set_crc(CrcMode::OneByte), Ok(()));
        let config = Config(chip.get(Register::Config));
        assert!(config.en_crc());
        assert!(!config.crco());
        assert_eq!(config.0 & !0x0C, start & !0x0C);

        assert_eq!(standby.set_crc(CrcMode::TwoBytes), Ok(()));
        let config = Config(chip.get(Register::Config));
        assert!(config.en_crc());
        assert!(config.crco());
        assert_eq!(config.0 & !0x0C, start & !0x0C);
    }
}

#[test]
fn set_crc_reads_then_writes_config() {
    let (mut standby, chip) = fresh();
    assert_eq!(standby.set_crc(CrcMode::TwoBytes), Ok(()));
    assert_eq!(chip.log(), vec![Op::Read(Register::Config), Op::Write(Register::Config, 0x0E)]);
}

#[test]
fn set_rx_addr_reaches_the_register_of_the_pipe() {
    let addresses: [&[u8]; 6] = [
        &[0xE7, 0xE7, 0xE7, 0xE7, 0xE7],
        &[0xC2, 0xC2, 0xC2, 0xC2, 0xC2],
        &[0xC3, 0x01, 0x02],
        &[0xC4, 0x11, 0x12, 0x13],
        &[0xC5],
        &[0xC6, 0x00, 0xFF, 0x00, 0xFF],
    ];
    let (mut standby, chip) = fresh();
    for pipe in 0..PIPES_COUNT {
        assert_eq!(standby.set_rx_addr(pipe, addresses[pipe]), Ok(()));
    }
    assert_eq!(chip.address(Register::RxAddrP0), addresses[0]);
    assert_eq!(chip.address(Register::RxAddrP1), addresses[1]);
    assert_eq!(chip.address(Register::RxAddrP2), addresses[2]);
    assert_eq!(chip.address(Register::RxAddrP3), addresses[3]);
    assert_eq!(chip.address(Register::RxAddrP4), addresses[4]);
    assert_eq!(chip.address(Register::RxAddrP5), addresses[5]);
    assert_eq!(chip.log().len(), 6);
    assert_eq!(chip.log()[3], Op::WriteAddress(Register::RxAddrP3, addresses[3].to_vec()));
}

#[test]
fn set_tx_addr_reaches_the_transmit_address() {
    let (mut standby, chip) = fresh();
    assert_eq!(standby.set_tx_addr(&[1, 2, 3, 4, 5]), Ok(()));
    assert_eq!(chip.address(Register::TxAddr), vec![1, 2, 3, 4, 5]);
    assert_eq!(chip.log(), vec![Op::WriteAddress(Register::TxAddr, vec![1, 2, 3, 4, 5])]);
}

#[test]
fn clear_interrupts_returns_what_was_pending_and_clears_it() {
    let (mut standby, chip) = fresh();
    chip.set(Register::Status, 0x4E);
    assert_eq!(
        standby.clear_interrupts(),
        Ok(Interrupts { rx_dr: true, tx_ds: false, max_rt: false })
    );
    assert_eq!(standby.get_interrupts(), Ok((false, false, false)));
    assert_eq!(chip.log(), vec![Op::Write(Register::Status, 0x70), Op::Command(Command::Nop)]);
}

#[test]
fn clear_interrupts_reports_each_flag() {
    for (status, pending) in [
        (0x00u8, Interrupts { rx_dr: false, tx_ds: false, max_rt: false }),
        (0x20, Interrupts { rx_dr: false, tx_ds: true, max_rt: false }),
        (0x10, Interrupts { rx_dr: false, tx_ds: false, max_rt: true }),
        (0x7F, Interrupts { rx_dr: true, tx_ds: true, max_rt: true }),
    ] {
        let (mut standby, chip) = fresh();
        chip.set(Register::Status, status);
        assert_eq!(standby.clear_interrupts(), Ok(pending));
        assert_eq!(chip.get(Register::Status) & 0x70, 0);
    }
}

#[test]
fn get_interrupts_reads_without_clearing() {
    let (mut standby, chip) = fresh();
    chip.set(Register::Status, 0x30);
    assert_eq!(standby.get_interrupts(), Ok((false, true, true)));
    assert_eq!(standby.get_interrupts(), Ok((false, true, true)));
    assert_eq!(chip.get(Register::Status), 0x30);
    assert_eq!(chip.log(), vec![Op::Command(Command::Nop); 2]);
}

#[test]
fn set_pipes_rx_lengths_writes_feature_then_flags_then_widths() {
    let (mut standby, chip) = fresh();
    chip.set(Register::Feature, 0x02);
    let lengths = [Some(32), None, Some(0), None, None, None];
    assert_eq!(standby.set_pipes_rx_lengths(&lengths), Ok(()));
    assert!(Feature(chip.get(Register::Feature)).en_dpl());
    assert_eq!(chip.get(Register::Dynpd), 0b111010);
    assert_eq!(
        Dynpd(chip.get(Register::Dynpd)).to_bools(),
        [false, true, false, true, true, true]
    );
    assert_eq!(
        chip.log(),
        vec![
            Op::Read(Register::Feature),
            Op::Write(Register::Feature, 0x06),
            Op::Write(Register::Dynpd, 0x3A),
            Op::Write(Register::RxPwP0, 32),
            Op::Write(Register::RxPwP1, 0),
            Op::Write(Register::RxPwP2, 0),
            Op::Write(Register::RxPwP3, 0),
            Op::Write(Register::RxPwP4, 0),
            Op::Write(Register::RxPwP5, 0),
        ]
    );
}

#[test]
fn set_pipes_rx_lengths_all_static_writes_only_the_widths() {
    let (mut standby, chip) = fresh();
    chip.set(Register::Feature, 0x03);
    chip.set(Register::Dynpd, 0x15);
    let lengths = [Some(1), Some(2), Some(3), Some(4), Some(5), Some(32)];
    assert_eq!(standby.set_pipes_rx_lengths(&lengths), Ok(()));
    assert_eq!(
        chip.log(),
        vec![
            Op::Write(Register::RxPwP0, 1),
            Op::Write(Register::RxPwP1, 2),
            Op::Write(Register::RxPwP2, 3),
            Op::Write(Register::RxPwP3, 4),
            Op::Write(Register::RxPwP4, 5),
            Op::Write(Register::RxPwP5, 32),
        ]
    );
    assert_eq!(chip.get(Register::Feature), 0x03);
    assert_eq!(chip.get(Register::Dynpd), 0x15);
}

#[test]
fn set_pipes_rx_lengths_all_zero_writes_only_the_widths() {
    let (mut standby, chip) = fresh();
    assert_eq!(standby.set_pipes_rx_lengths(&[Some(0); 6]), Ok(()));
    let log = chip.log();
    assert_eq!(log.len(), 6);
    for pipe in 0..PIPES_COUNT {
        assert_eq!(log[pipe], Op::Write(Register::rx_pw(pipe), 0));
    }
}

#[test]
fn set_pipes_rx_lengths_one_dynamic_pipe_writes_the_flags() {
    let (mut standby, chip) = fresh();
    let lengths = [Some(8), Some(8), Some(8), Some(8), Some(8), None];
    assert_eq!(standby.set_pipes_rx_lengths(&lengths), Ok(()));
    let log = chip.log();
    assert_eq!(log.len(), 9);
    assert_eq!(log[0], Op::Read(Register::Feature));
    assert_eq!(log[1], Op::Write(Register::Feature, 0x04));
    assert_eq!(log[2], Op::Write(Register::Dynpd, 0x20));
    assert_eq!(log[3], Op::Write(Register::RxPwP0, 8));
    assert_eq!(log[8], Op::Write(Register::RxPwP5, 0));
}

#[test]
fn set_pipes_rx_lengths_all_static_stops_at_the_failed_width() {
    let (mut standby, chip) = fresh();
    let at = chip.fail_after(2);
    let lengths = [Some(1), Some(2), Some(3), Some(4), Some(5), Some(6)];
    assert_eq!(standby.set_pipes_rx_lengths(&lengths), Err(BusError(at)));
    assert_eq!(
        chip.log(),
        vec![
            Op::Write(Register::RxPwP0, 1),
            Op::Write(Register::RxPwP1, 2),
            Op::Write(Register::RxPwP2, 3),
        ]
    );
    assert_eq!(chip.get(Register::RxPwP1), 2);
    assert_eq!(chip.get(Register::RxPwP2), 0);
}

#[test]
fn set_pipes_rx_lengths_all_dynamic_writes_zero_widths() {
    let (mut standby, chip) = fresh();
    assert_eq!(standby.set_pipes_rx_lengths(&[None; 6]), Ok(()));
    let log = chip.log();
    assert_eq!(log.len(), 9);
    assert_eq!(log[2], Op::Write(Register::Dynpd, 0x3F));
    for pipe in 0..PIPES_COUNT {
        assert_eq!(log[3 + pipe], Op::Write(Register::rx_pw(pipe), 0));
    }
}

#[test]
fn set_pipes_rx_lengths_is_not_atomic() {
    let (mut standby, chip) = fresh();
    let at = chip.fail_after(4);
    let lengths = [Some(32), None, Some(7), Some(8), Some(9), Some(10)];
    assert_eq!(standby.set_pipes_rx_lengths(&lengths), Err(BusError(at)));
    assert_eq!(
        chip.log(),
        vec![
            Op::Read(Register::Feature),
            Op::Write(Register::Feature, 0x04),
            Op::Write(Register::Dynpd, 0x02),
            Op::Write(Register::RxPwP0, 32),
            Op::Write(Register::RxPwP1, 0),
        ]
    );
    assert_eq!(chip.get(Register::Feature), 0x04);
    assert_eq!(chip.get(Register::Dynpd), 0x02);
    assert_eq!(chip.get(Register::RxPwP0), 32);
    assert_eq!(chip.get(Register::RxPwP2), 0);
}

#[test]
fn set_frequency_writes_the_channel() {
    let (mut standby, chip) = fresh();
    assert_eq!(standby.set_frequency(0), Ok(()));
    assert_eq!(standby.set_frequency(76), Ok(()));
    assert_eq!(standby.set_frequency(125), Ok(()));
    assert_eq!(
        chip.log(),
        vec![
            Op::Write(Register::RfCh, 0),
            Op::Write(Register::RfCh, 76),
            Op::Write(Register::RfCh, 125),
        ]
    );
    assert_eq!(standby.get_frequency(), Ok(125));
}

#[test]
fn get_frequency_takes_the_low_seven_bits() {
    let (mut standby, chip) = fresh();
    chip.set(Register::RfCh, 0x80 | 42);
    assert_eq!(standby.get_frequency(), Ok(42));
    assert_eq!(chip.log(), vec![Op::Read(Register::RfCh)]);
}

#[test]
fn set_interrupt_mask_changes_only_the_mask_bits() {
    let (mut standby, chip) = fresh();
    chip.set(Register::Config, 0x0B);
    assert_eq!(standby.set_interrupt_mask(true, false, true), Ok(()));
    assert_eq!(chip.get(Register::Config), 0x5B);
    assert_eq!(standby.set_interrupt_mask(false, true, false), Ok(()));
    assert_eq!(chip.get(Register::Config), 0x2B);
    assert_eq!(standby.set_interrupt_mask(false, false, false), Ok(()));
    assert_eq!(chip.get(Register::Config), 0x0B);
    assert_eq!(chip.log()[0], Op::Read(Register::Config));
    assert_eq!(chip.log()[1], Op::Write(Register::Config, 0x5B));
}

#[test]
fn set_pipes_rx_enable_writes_the_enable_map() {
    let (mut standby, chip) = fresh();
    let enabled = [true, true, false, false, false, true];
    assert_eq!(standby.set_pipes_rx_enable(&enabled), Ok(()));
    assert_eq!(chip.log(), vec![Op::Write(Register::EnRxaddr, 0x23)]);
}

#[test]
fn set_auto_retransmit_writes_delay_and_count() {
    let (mut standby, chip) = fresh();
    assert_eq!(standby.set_auto_retransmit(5, 10), Ok(()));
    assert_eq!(standby.set_auto_retransmit(0, 0), Ok(()));
    assert_eq!(
        chip.log(),
        vec![Op::Write(Register::SetupRetr, 0x5A), Op::Write(Register::SetupRetr, 0x00)]
    );
}

#[test]
fn auto_ack_round_trips() {
    let (mut standby, chip) = fresh();
    let wanted = [true, false, true, true, false, false];
    assert_eq!(standby.set_auto_ack(&wanted), Ok(()));
    assert_eq!(standby.get_auto_ack(), Ok(wanted));
    assert_eq!(chip.log(), vec![Op::Write(Register::EnAa, 0x0D), Op::Read(Register::EnAa)]);
}

#[test]
fn address_width_is_the_raw_field_plus_two() {
    for raw in 0..4u8 {
        let (mut standby, chip) = fresh();
        chip.set(Register::SetupAw, 0xFC | raw);
        assert_eq!(standby.get_address_width(), Ok(2 + raw));
        assert_eq!(chip.log(), vec![Op::Read(Register::SetupAw)]);
    }
}

#[test]
fn flushes_issue_their_command() {
    let (mut standby, chip) = fresh();
    chip.arrive(&[1]);
    chip.queue(&[2]);
    assert_eq!(standby.flush_rx(), Ok(()));
    assert!(chip.rx_fifo().is_empty());
    assert_eq!(chip.tx_fifo().len(), 1);
    assert_eq!(standby.flush_tx(), Ok(()));
    assert!(chip.tx_fifo().is_empty());
    assert_eq!(standby.flush_tx(), Ok(()));
    assert_eq!(
        chip.log(),
        vec![
            Op::Command(Command::FlushRx),
            Op::Command(Command::FlushTx),
            Op::Command(Command::FlushTx),
        ]
    );
}

#[test]
fn a_bus_error_comes_back_as_it_is() {
    let (mut standby, chip) = fresh();
    let at = chip.fail_after(0);
    assert_eq!(standby.set_frequency(3), Err(BusError(at)));
    let at = chip.fail_after(0);
    assert_eq!(standby.get_frequency(), Err(BusError(at)));
    let at = chip.fail_after(1);
    assert_eq!(standby.set_crc(CrcMode::OneByte), Err(BusError(at)));
    let at = chip.fail_after(0);
    assert_eq!(standby.clear_interrupts(), Err(BusError(at)));
    let at = chip.fail_after(0);
    assert_eq!(standby.get_auto_ack(), Err(BusError(at)));
    let at = chip.fail_after(0);
    assert_eq!(standby.set_rx_addr(0, &[1, 2, 3]), Err(BusError(at)));
    let at = chip.fail_after(0);
    assert_eq!(standby.flush_rx(), Err(BusError(at)));
    assert_eq!(chip.get(Register::Config), 0x0A);
    assert_eq!(chip.get(Register::RfCh), 0);
    assert_eq!(chip.log().len(), 8);
}

#[test]
fn configuration_works_in_every_mode() {
    let chip = Chip::new();
    let mut rx = receiving(&chip);
    assert_eq!(rx.set_frequency(10), Ok(()));
    assert_eq!(chip.get(Register::RfCh), 10);
    let mut standby = rx.standby();
    assert_eq!(standby.set_frequency(11), Ok(()));
    assert_eq!(chip.get(Register::RfCh), 11);
    let mut tx = transmitting(standby);
    assert_eq!(tx.set_frequency(12), Ok(()));
    assert_eq!(chip.get(Register::RfCh), 12);
    let (mut ptx, chip) = transceiving();
    assert_eq!(ptx.set_frequency(13), Ok(()));
    assert_eq!(chip.get(Register::RfCh), 13);
}

// Modes

#[test]
fn power_up_sets_the_power_up_bit_and_keeps_the_rest() {
    let chip = Chip::new();
    let _standby = powered_up(&chip);
    assert_eq!(chip.get(Register::Config), 0x0A);
    assert_eq!(chip.log(), vec![Op::Read(Register::Config), Op::Write(Register::Config, 0x0A)]);
    assert!(!chip.chip_enable());
}

#[test]
fn power_up_failure_hands_the_device_back() {
    let chip = Chip::failing_at(1);
    match StandbyMode::power_up(chip.clone()) {
        Ok(_) => panic!("the write was to fail"),
        Err((returned, error)) => {
            assert_eq!(error, BusError(1));
            assert!(returned.same_as(&chip));
            assert_eq!(chip.get(Register::Config), 0x08);
            assert_eq!(
                chip.log(),
                vec![Op::Read(Register::Config), Op::Write(Register::Config, 0x0A)]
            );
        }
    }
}

#[test]
fn rx_sets_the_receiver_bit_then_raises_chip_enable() {
    let chip = Chip::new();
    let _rx = receiving(&chip);
    assert_eq!(chip.get(Register::Config), 0x0B);
    assert!(chip.chip_enable());
    assert_eq!(
        chip.log()[2..],
        [
            Op::Read(Register::Config),
            Op::Write(Register::Config, 0x0B),
            Op::ChipEnable(true),
        ]
    );
}

#[test]
fn rx_write_failure_hands_back_a_usable_device() {
    let chip = Chip::failing_at(3);
    let standby = powered_up(&chip);
    match standby.rx() {
        Ok(_) => panic!("the write was to fail"),
        Err((returned, error)) => {
            assert_eq!(error, BusError(3));
            assert!(returned.same_as(&chip));
            assert!(!chip.chip_enable());
            assert_eq!(chip.get(Register::Config), 0x0A);
            assert_eq!(chip.log().len(), 4);
            let mut again = match StandbyMode::power_up(returned) {
                Ok(standby) => standby,
                Err((_, error)) => panic!("power up failed: {:?}", error),
            };
            assert_eq!(again.set_frequency(5), Ok(()));
            let _rx = match again.rx() {
                Ok(rx) => rx,
                Err((_, error)) => panic!("entering receive mode failed: {:?}", error),
            };
            assert_eq!(chip.get(Register::Config), 0x0B);
            assert_eq!(chip.get(Register::RfCh), 5);
            assert!(chip.chip_enable());
        }
    }
}

#[test]
fn rx_read_failure_writes_nothing() {
    let chip = Chip::failing_at(2);
    match powered_up(&chip).rx() {
        Ok(_) => panic!("the read was to fail"),
        Err((returned, error)) => {
            assert_eq!(error, BusError(2));
            assert!(returned.same_as(&chip));
            assert_eq!(chip.log().len(), 3);
            assert_eq!(chip.log()[2], Op::Read(Register::Config));
        }
    }
}

#[test]
fn tx_clears_the_receiver_bit_and_leaves_chip_enable() {
    let chip = Chip::new();
    chip.set(Register::Config, 0x09);
    let _tx = transmitting(powered_up(&chip));
    assert_eq!(chip.get(Register::Config), 0x0A);
    assert!(!chip.chip_enable());
    assert_eq!(chip.log()[2..], [Op::Read(Register::Config), Op::Write(Register::Config, 0x0A)]);
}

#[test]
fn tx_failure_hands_the_device_back() {
    let chip = Chip::failing_at(3);
    match powered_up(&chip).tx() {
        Ok(_) => panic!("the write was to fail"),
        Err((returned, error)) => {
            assert_eq!(error, BusError(3));
            assert!(returned.same_as(&chip));
            assert_eq!(chip.log().len(), 4);
        }
    }
}

#[test]
fn leaving_rx_and_tx_lowers_chip_enable() {
    let chip = Chip::new();
    let rx = receiving(&chip);
    assert!(chip.chip_enable());
    let standby = rx.standby();
    assert!(!chip.chip_enable());
    assert_eq!(chip.log().last(), Some(&Op::ChipEnable(false)));
    let before = chip.transactions();
    let tx = transmitting(standby);
    let _standby = tx.standby();
    assert_eq!(chip.log().last(), Some(&Op::ChipEnable(false)));
    assert_eq!(chip.transactions(), before + 2);
}

#[test]
fn ptx_configures_in_order() {
    let chip = Chip::new();
    chip.set(Register::Config, 0x09);
    chip.set(Register::Feature, 0x01);
    let standby = powered_up(&chip);
    assert!(standby.ptx(2, 7).is_ok());
    assert_eq!(
        chip.log()[2..],
        [
            Op::Write(Register::EnAa, 0x3F),
            Op::Write(Register::SetupRetr, 0x27),
            Op::Read(Register::Feature),
            Op::Write(Register::Feature, 0x07),
            Op::Write(Register::Dynpd, 0x3F),
            Op::Read(Register::Config),
            Op::Write(Register::Config, 0x0A),
        ]
    );
    assert!(!chip.chip_enable());
}

#[test]
fn ptx_failure_keeps_the_earlier_writes() {
    let chip = Chip::failing_at(2 + 4);
    match powered_up(&chip).ptx(2, 7) {
        Ok(_) => panic!("the write was to fail"),
        Err((returned, error)) => {
            assert_eq!(error, BusError(6));
            assert!(returned.same_as(&chip));
            assert_eq!(chip.get(Register::EnAa), 0x3F);
            assert_eq!(chip.get(Register::SetupRetr), 0x27);
            assert_eq!(chip.get(Register::Feature), 0x06);
            assert_eq!(chip.get(Register::Dynpd), 0x00);
            assert_eq!(chip.get(Register::Config), 0x0A);
            assert_eq!(chip.log().len(), 2 + 5);
            assert_eq!(chip.log()[6], Op::Write(Register::Dynpd, 0x3F));
        }
    }
}

#[test]
fn ptx_fails_at_every_step_with_the_device() {
    for step in 0..7 {
        let chip = Chip::failing_at(2 + step);
        match powered_up(&chip).ptx(0, 0) {
            Ok(_) => panic!("step {} was to fail", step),
            Err((returned, error)) => {
                assert_eq!(error, BusError(2 + step));
                assert!(returned.same_as(&chip));
                assert_eq!(chip.log().len(), 2 + step + 1);
            }
        }
    }
    assert!(powered_up(&Chip::failing_at(2 + 7)).ptx(0, 0).is_ok());
}

// The send and receive cycle

#[test]
fn an_idle_cycle_only_reads_the_status() {
    let (mut ptx, chip) = transceiving();
    assert_eq!(
        ptx.send_receive(None),
        Ok(SendReceiveResult { received: None, sent: false, dropped: false })
    );
    assert_eq!(chip.log(), vec![Op::Read(Register::FifoStatus)]);
    assert!(!chip.chip_enable());
}

#[test]
fn a_stuck_packet_is_flushed_and_its_flag_cleared() {
    let (mut ptx, chip) = transceiving();
    chip.set(Register::Status, 0x1E);
    chip.queue(&[9, 9]);
    assert_eq!(
        ptx.send_receive(None),
        Ok(SendReceiveResult { received: None, sent: false, dropped: true })
    );
    assert_eq!(
        chip.log(),
        vec![
            Op::Read(Register::FifoStatus),
            Op::Command(Command::FlushTx),
            Op::Write(Register::Status, 0x10),
        ]
    );
    assert!(chip.tx_fifo().is_empty());
    assert!(!Status(chip.get(Register::Status)).max_rt());
}

#[test]
fn a_full_fifo_takes_no_payload() {
    let (mut ptx, chip) = transceiving();
    chip.set(Register::FifoStatus, 0x21);
    assert_eq!(
        ptx.send_receive(Some(&[1, 2, 3])),
        Ok(SendReceiveResult { received: None, sent: false, dropped: false })
    );
    assert_eq!(chip.log(), vec![Op::Read(Register::FifoStatus)]);
    assert!(chip.tx_fifo().is_empty());
    assert!(!chip.chip_enable());
}

#[test]
fn a_payload_is_written_and_chip_enable_raised() {
    let (mut ptx, chip) = transceiving();
    assert_eq!(
        ptx.send_receive(Some(&[1, 2, 3])),
        Ok(SendReceiveResult { received: None, sent: true, dropped: false })
    );
    assert_eq!(
        chip.log(),
        vec![
            Op::Read(Register::FifoStatus),
            Op::WritePayload(vec![1, 2, 3]),
            Op::ChipEnable(true),
        ]
    );
    assert_eq!(chip.tx_fifo(), vec![vec![1, 2, 3]]);
    assert!(chip.chip_enable());
}

#[test]
fn chip_enable_stays_high_after_a_send() {
    let (mut ptx, chip) = transceiving();
    assert!(ptx.send_receive(Some(&[1])).is_ok());
    assert!(ptx.send_receive(None).is_ok());
    assert!(chip.chip_enable());
    assert!(!chip.log().contains(&Op::ChipEnable(false)));
}

#[test]
fn a_waiting_payload_is_read_with_its_pipe() {
    let (mut ptx, chip) = transceiving();
    chip.set(Register::FifoStatus, 0x10);
    chip.set(Register::Status, 0x46);
    chip.arrive(&[10, 20, 30, 40]);
    assert_eq!(
        ptx.send_receive(None),
        Ok(SendReceiveResult {
            received: Some(Received { pipe: 3, payload: vec![10, 20, 30, 40] }),
            sent: false,
            dropped: false,
        })
    );
    assert_eq!(
        chip.log(),
        vec![Op::Read(Register::FifoStatus), Op::ReadWidth, Op::ReadPayload(4)]
    );
    assert!(chip.rx_fifo().is_empty());
}

#[test]
fn a_cycle_drops_then_sends_then_receives() {
    let (mut ptx, chip) = transceiving();
    chip.set(Register::FifoStatus, 0x00);
    chip.set(Register::Status, 0x50);
    chip.arrive(&[7]);
    assert_eq!(
        ptx.send_receive(Some(&[5, 6])),
        Ok(SendReceiveResult {
            received: Some(Received { pipe: 0, payload: vec![7] }),
            sent: true,
            dropped: true,
        })
    );
    assert_eq!(
        chip.log(),
        vec![
            Op::Read(Register::FifoStatus),
            Op::Command(Command::FlushTx),
            Op::Write(Register::Status, 0x10),
            Op::WritePayload(vec![5, 6]),
            Op::ChipEnable(true),
            Op::ReadWidth,
            Op::ReadPayload(1),
        ]
    );
}

#[test]
fn a_cycle_stops_at_the_first_bus_error() {
    for (step, done) in [(0usize, 1usize), (1, 2), (2, 3), (3, 4), (4, 6), (5, 7)] {
        let (mut ptx, chip) = transceiving();
        chip.set(Register::FifoStatus, 0x00);
        chip.set(Register::Status, 0x50);
        chip.arrive(&[7]);
        let at = chip.fail_after(step);
        assert_eq!(ptx.send_receive(Some(&[5, 6])), Err(BusError(at)));
        assert_eq!(chip.log().len(), done);
    }
}
