//! Configuration: the operations that every mode of the chip offers, each
//! an intent turned into register exchanges.

use crate::bits::{bit_of, lemma_with_bit, packed, unpacked};
use crate::device::{Command, Device, Request};
use crate::holder::UsingDevice;
use crate::registers::{
    Config, Dynpd, EnAa, EnRxaddr, Feature, Register, RfCh, RfSetup, RxPw, SetupAw, SetupRetr,
    Status,
};
use crate::script::{
    byte_of, lemma_finish, lemma_start, outcome_of, ran, read_modify_write, single, status_of,
    step_command, step_read, step_write, step_write_address, underway, verdict, Step,
};
use crate::PIPES_COUNT;
use vstd::prelude::*;

verus! {

/// Supported air data rates.
#[derive(Debug, PartialEq, Eq, Copy, Clone)]
pub enum DataRate {
    /// 250 Kbps
    R250Kbps,
    /// 1 Mbps
    R1Mbps,
    /// 2 Mbps
    R2Mbps,
}

impl Default for DataRate {
    fn default() -> (rate: DataRate)
        ensures
            rate == DataRate::R1Mbps,
    {
        DataRate::R1Mbps
    }
}

impl DataRate {
    /// The data rate that the two rate bits of RF_SETUP select, if any:
    /// both bits set select none.
    pub open spec fn spec_from_bits(dr_low: bool, dr_high: bool) -> Option<DataRate> {
        if dr_low && dr_high {
            None
        } else if dr_low {
            Some(DataRate::R250Kbps)
        } else if dr_high {
            Some(DataRate::R2Mbps)
        } else {
            Some(DataRate::R1Mbps)
        }
    }

    /// The data rate that the two rate bits of RF_SETUP select, if any:
    /// both bits set select none.
    #[verifier::when_used_as_spec(spec_from_bits)]
    pub fn from_bits(dr_low: bool, dr_high: bool) -> (rate: Option<DataRate>)
        ensures
            rate == DataRate::spec_from_bits(dr_low, dr_high),
    {
        match (dr_low, dr_high) {
            (true, true) => None,
            (true, false) => Some(DataRate::R250Kbps),
            (false, true) => Some(DataRate::R2Mbps),
            (false, false) => Some(DataRate::R1Mbps),
        }
    }
}

/// Supported CRC modes
#[derive(Debug, PartialEq, Eq, Copy, Clone)]
pub enum CrcMode {
    /// Disable all CRC generation/checking
    Disabled,
    /// One byte checksum
    OneByte,
    /// Two bytes checksum
    TwoBytes,
}

impl CrcMode {
    /// `config` with its two CRC bits set for this mode and all else as it
    /// is.
    pub open spec fn applied(self, config: Config) -> Config {
        config.with_en_crc(!(self is Disabled)).with_crco(self is TwoBytes)
    }

    /// Sets the two CRC bits of `config` for this mode: CRC off and one
    /// byte wide when disabled, else CRC on and as wide as the mode says.
    pub fn set_config(&self, config: &mut Config)
        ensures
            *final(config) == self.applied(*old(config)),
    {
        let (en_crc, crco) = match *self {
            CrcMode::Disabled => (false, false),
            CrcMode::OneByte => (true, false),
            CrcMode::TwoBytes => (true, true),
        };
        config.set_en_crc(en_crc);
        config.set_crco(crco);
    }
}

/// Setting the CRC mode leaves CRC off when the mode is disabled, switches
/// it on and one byte wide for one byte, and on and two bytes wide for two.
/// Every other bit of CONFIG stays as it is.
pub proof fn lemma_crc_bits(mode: CrcMode, config: Config)
    ensures
        mode.applied(config).en_crc() == !(mode is Disabled),
        mode.applied(config).crco() == (mode is TwoBytes),
        forall|n: u8|
            n < 8 && n != 3 && n != 2 ==> bit_of(mode.applied(config).0, n) == bit_of(config.0, n),
{
    let enabled = config.with_en_crc(!(mode is Disabled));
    lemma_with_bit(enabled.0, 2, mode is TwoBytes, 2);
    lemma_with_bit(enabled.0, 2, mode is TwoBytes, 3);
    lemma_with_bit(config.0, 3, !(mode is Disabled), 3);
    assert forall|n: u8| n < 8 && n != 3 && n != 2 implies bit_of(mode.applied(config).0, n)
        == bit_of(config.0, n) by {
        lemma_with_bit(enabled.0, 2, mode is TwoBytes, n);
        lemma_with_bit(config.0, 3, !(mode is Disabled), n);
    }
}

/// The byte of RF_SETUP for a data rate and a power level: the power in
/// bits 2 and 1, bit 5 for 250 Kbps, bit 3 for 2 Mbps.
pub open spec fn rf_setup_value(rate: DataRate, power: u8) -> u8 {
    (2 * power + (if rate is R250Kbps {
        32int
    } else {
        0int
    }) + (if rate is R2Mbps {
        8int
    } else {
        0int
    })) as u8
}

/// The value of RF_SETUP for a data rate and a power level from 0, the
/// weakest, to 3.
pub fn rf_setup(rate: &DataRate, power: u8) -> (register: RfSetup)
    requires
        power < 4,
    ensures
        register.0 == rf_setup_value(*rate, power),
{
    let mut register = RfSetup(0);
    register.set_rf_pwr(power);
    let (dr_low, dr_high) = match *rate {
        DataRate::R250Kbps => (true, false),
        DataRate::R1Mbps => (false, false),
        DataRate::R2Mbps => (false, true),
    };
    register.set_rf_dr_low(dr_low);
    register.set_rf_dr_high(dr_high);
    register
}

/// The value of RF_SETUP for a data rate and a power level holds both: its
/// rate bits select that rate and its power field is that level.
pub proof fn lemma_rf_setup_round_trip(rate: DataRate, power: u8)
    requires
        power < 4,
    ensures
        RfSetup(rf_setup_value(rate, power)).rf_pwr() == power,
        DataRate::from_bits(
            RfSetup(rf_setup_value(rate, power)).rf_dr_low(),
            RfSetup(rf_setup_value(rate, power)).rf_dr_high(),
        ) == Some(rate),
{
}

/// The byte of SETUP_RETR for a delay and a retry count: the low four bits
/// of the delay in the high half, the low four bits of the count in the
/// low half.
pub open spec fn auto_retransmit_value(delay: u8, count: u8) -> u8 {
    ((delay % 16) * 16 + count % 16) as u8
}

/// The value of SETUP_RETR for a delay between retransmissions and a
/// number of them. Both zero switches retransmission off.
pub fn auto_retransmit(delay: u8, count: u8) -> (register: SetupRetr)
    ensures
        register.0 == auto_retransmit_value(delay, count),
{
    let mut register = SetupRetr(0);
    register.set_ard(delay);
    register.set_arc(count);
    register
}

/// The value of EN_AA that switches automatic acknowledgement on for the
/// pipes whose flag is set.
pub fn auto_ack(bools: &[bool; PIPES_COUNT]) -> (register: EnAa)
    ensures
        register.0 == packed(bools@),
{
    EnAa::from_bools(bools)
}

/// The interrupts that are pending.
#[derive(Debug, PartialEq, Eq, Copy, Clone)]
pub struct Interrupts {
    /// Data has been received.
    pub rx_dr: bool,
    /// Data has been acknowledged, so a slot of the transmit FIFO is free
    /// again.
    pub tx_ds: bool,
    /// The packet at the head of the transmit FIFO has reached the
    /// retransmit limit, and transmission has stopped.
    pub max_rt: bool,
}

impl Interrupts {
    /// The interrupts that a status byte reports as pending.
    pub open spec fn spec_from_status(status: Status) -> Interrupts {
        Interrupts { rx_dr: status.rx_dr(), tx_ds: status.tx_ds(), max_rt: status.max_rt() }
    }

    /// The interrupts that a status byte reports as pending.
    #[verifier::when_used_as_spec(spec_from_status)]
    pub fn from_status(status: Status) -> (pending: Interrupts)
        ensures
            pending == Interrupts::spec_from_status(status),
    {
        Interrupts { rx_dr: status.rx_dr(), tx_ds: status.tx_ds(), max_rt: status.max_rt() }
    }
}

/// The script that sets the CRC mode: a read-modify-write of CONFIG.
pub open spec fn crc_steps(mode: CrcMode) -> Seq<Step> {
    read_modify_write(Register::Config, |byte: u8| mode.applied(Config(byte)).0)
}

/// The script that sets the interrupt mask: a read-modify-write of CONFIG.
pub open spec fn interrupt_mask_steps(
    data_ready_rx: bool,
    data_sent_tx: bool,
    max_retransmits_tx: bool,
) -> Seq<Step> {
    read_modify_write(
        Register::Config,
        |byte: u8|
            Config(byte).with_mask_rx_dr(data_ready_rx).with_mask_tx_ds(
                data_sent_tx,
            ).with_mask_max_rt(max_retransmits_tx).0,
    )
}

/// The byte of a static payload width register: the low six bits of the
/// length for a pipe of static length, zero for a pipe of dynamic length.
pub open spec fn static_width(length: Option<u8>) -> u8 {
    match length {
        Some(length) => length % 64,
        None => 0,
    }
}

/// Which pipes take payloads of dynamic length: those without a static
/// length.
pub open spec fn dynamic_pipes(lengths: Seq<Option<u8>>) -> Seq<bool> {
    Seq::new(6, |pipe: int| lengths[pipe] is None)
}

/// The step that writes the static width register of `pipe`.
pub open spec fn static_width_step(lengths: Seq<Option<u8>>, pipe: int) -> Step {
    Step::Request(
        Request::WriteRegister(Register::rx_pw(pipe as usize), static_width(lengths[pipe])),
    )
}

/// The steps that switch dynamic payload length on: a read-modify-write of
/// FEATURE that sets the dynamic payload bit, then the per-pipe dynamic
/// flags. Where no pipe is dynamic there are none, and both registers stay
/// as they are.
pub open spec fn dynamic_length_steps(lengths: Seq<Option<u8>>) -> Seq<Step> {
    if dynamic_pipes(lengths).contains(true) {
        read_modify_write(Register::Feature, |byte: u8| Feature(byte).with_en_dpl(true).0)
            + single(Request::WriteRegister(Register::Dynpd, packed(dynamic_pipes(lengths))))
    } else {
        Seq::empty()
    }
}

/// The script that sets the payload length of every pipe. If any pipe is
/// dynamic, the dynamic payload feature is switched on first and the
/// per-pipe dynamic flags are written next. The six static widths always
/// come last, pipe 0 first.
pub open spec fn rx_lengths_steps(lengths: Seq<Option<u8>>) -> Seq<Step> {
    dynamic_length_steps(lengths) + Seq::new(6, |pipe: int| static_width_step(lengths, pipe))
}

/// Where every pipe has a static length, only the six static widths are
/// written: neither the dynamic payload feature nor the per-pipe dynamic
/// flags are touched.
pub proof fn lemma_static_lengths_write_widths_only(lengths: Seq<Option<u8>>)
    requires
        lengths.len() == 6,
        forall|pipe: int| 0 <= pipe < 6 ==> lengths[pipe] is Some,
    ensures
        rx_lengths_steps(lengths).len() == 6,
        forall|pipe: int|
            0 <= pipe < 6 ==> #[trigger] rx_lengths_steps(lengths)[pipe] == static_width_step(
                lengths,
                pipe,
            ),
{
    if dynamic_pipes(lengths).contains(true) {
        let pipe = choose|pipe: int| 0 <= pipe < 6 && dynamic_pipes(lengths)[pipe] == true;
        assert(dynamic_pipes(lengths)[pipe]);
    }
}

/// Where some pipe has a dynamic length, the dynamic payload feature is
/// switched on first, the per-pipe dynamic flags are written next, and the
/// six static widths follow.
pub proof fn lemma_dynamic_lengths_come_first(lengths: Seq<Option<u8>>, dynamic: int)
    requires
        lengths.len() == 6,
        0 <= dynamic < 6,
        lengths[dynamic] is None,
    ensures
        rx_lengths_steps(lengths).len() == 9,
        rx_lengths_steps(lengths)[0] == Step::Request(Request::ReadRegister(Register::Feature)),
        rx_lengths_steps(lengths)[1] matches Step::WriteBack { register, change }
            && register == Register::Feature && forall|byte: u8|
            change(byte) == Feature(byte).with_en_dpl(true).0,
        rx_lengths_steps(lengths)[2] == Step::Request(
            Request::WriteRegister(Register::Dynpd, packed(dynamic_pipes(lengths))),
        ),
        forall|pipe: int|
            0 <= pipe < 6 ==> #[trigger] rx_lengths_steps(lengths)[3 + pipe] == static_width_step(
                lengths,
                pipe,
            ),
{
    assert(dynamic_pipes(lengths)[dynamic]);
}

/// Runs the script that sets the payload length of every pipe.
fn write_rx_lengths<D: Device>(
    device: &mut D,
    lengths: &[Option<u8>; PIPES_COUNT],
) -> (result: Result<(), D::Error>)
    ensures
        ran(old(device).history(), final(device).history(), rx_lengths_steps(lengths@)),
        result == verdict(old(device).history(), final(device).history()),
{
    let ghost before = device.history();
    let ghost steps = rx_lengths_steps(lengths@);
    proof {
        lemma_start(before, steps);
    }
    // Enable dynamic payload lengths
    let mut bools = [true;PIPES_COUNT];
    let mut pipe: usize = 0;
    while pipe < PIPES_COUNT
        invariant
            pipe <= PIPES_COUNT,
            forall|i: int| 0 <= i < pipe ==> bools@[i] == (lengths@[i] is None),
        decreases PIPES_COUNT - pipe,
    {
        bools[pipe] = lengths[pipe].is_none();
        pipe += 1;
    }
    assert(bools@ =~= dynamic_pipes(lengths@));
    let dynpd = Dynpd::from_bools(&bools);
    if dynpd.0 != 0 {
        assert(dynamic_pipes(lengths@).contains(true)) by {
            if !dynamic_pipes(lengths@).contains(true) {
                assert(!dynamic_pipes(lengths@)[0]);
                assert(!dynamic_pipes(lengths@)[1]);
                assert(!dynamic_pipes(lengths@)[2]);
                assert(!dynamic_pipes(lengths@)[3]);
                assert(!dynamic_pipes(lengths@)[4]);
                assert(!dynamic_pipes(lengths@)[5]);
            }
        }
        let (_, byte) = step_read(device, Register::Feature, Ghost(before), Ghost(steps))?;
        let mut feature = Feature(byte);
        feature.set_en_dpl(true);
        step_write(device, Register::Feature, feature.0, Ghost(before), Ghost(steps))?;
        assert(steps[2] == Step::Request(Request::WriteRegister(Register::Dynpd, dynpd.0)));
        step_write(device, Register::Dynpd, dynpd.0, Ghost(before), Ghost(steps))?;
    } else {
        assert(!dynamic_pipes(lengths@).contains(true)) by {
            if dynamic_pipes(lengths@).contains(true) {
                let pipe = choose|pipe: int|
                    0 <= pipe < 6 && dynamic_pipes(lengths@)[pipe] == true;
                assert(dynamic_pipes(lengths@)[pipe]);
            }
        }
    }
    let ghost offset = device.history().len() - before.len();
    // Set static payload lengths
    let mut pipe: usize = 0;
    while pipe < PIPES_COUNT
        invariant
            pipe <= PIPES_COUNT,
            before == old(device).history(),
            steps == rx_lengths_steps(lengths@),
            steps.len() == offset + 6,
            device.history().len() == before.len() + offset + pipe,
            underway(before, device.history(), steps),
        decreases PIPES_COUNT - pipe,
    {
        let mut register = RxPw(0);
        register.set_width(lengths[pipe].unwrap_or(0));
        assert(steps[offset + pipe] == static_width_step(lengths@, pipe as int));
        step_write(device, Register::rx_pw(pipe), register.0, Ghost(before), Ghost(steps))?;
        pipe += 1;
    }
    proof {
        lemma_finish(before, device.history(), steps);
    }
    Ok(())
}

/// Configuration methods, the same in every mode.
///
/// Each method runs a script on the device that the mode holds and stops at
/// the first transaction that fails; it then returns the bus's error as it
/// came. What a method reads, it decodes from the last reply.
pub trait Configuration<D: Device>: UsingDevice<D> {
    /// Flushes the receive FIFO, discarding any unread packets.
    fn flush_rx(&mut self) -> (result: Result<(), D::Error>)
        ensures
            ran(
                old(self).held().history(),
                final(self).held().history(),
                single(Request::Command(Command::FlushRx)),
            ),
            result == verdict(old(self).held().history(), final(self).held().history()),
    {
        let device = self.device();
        let ghost before = device.history();
        let ghost steps = single(Request::Command(Command::FlushRx));
        proof {
            lemma_start(before, steps);
        }
        step_command(device, Command::FlushRx, Ghost(before), Ghost(steps))?;
        proof {
            lemma_finish(before, device.history(), steps);
        }
        Ok(())
    }

    /// Flushes the transmit FIFO, discarding any unsent packets.
    fn flush_tx(&mut self) -> (result: Result<(), D::Error>)
        ensures
            ran(
                old(self).held().history(),
                final(self).held().history(),
                single(Request::Command(Command::FlushTx)),
            ),
            result == verdict(old(self).held().history(), final(self).held().history()),
    {
        let device = self.device();
        let ghost before = device.history();
        let ghost steps = single(Request::Command(Command::FlushTx));
        proof {
            lemma_start(before, steps);
        }
        step_command(device, Command::FlushTx, Ghost(before), Ghost(steps))?;
        proof {
            lemma_finish(before, device.history(), steps);
        }
        Ok(())
    }

    /// Reads the frequency channel.
    fn get_frequency(&mut self) -> (result: Result<u8, D::Error>)
        ensures
            ran(
                old(self).held().history(),
                final(self).held().history(),
                single(Request::ReadRegister(Register::RfCh)),
            ),
            outcome_of(result) == verdict(old(self).held().history(), final(self).held().history()),
            result matches Ok(channel) ==> channel == RfCh(
                byte_of(final(self).held().history().last()),
            ).rf_ch(),
    {
        let device = self.device();
        let ghost before = device.history();
        let ghost steps = single(Request::ReadRegister(Register::RfCh));
        proof {
            lemma_start(before, steps);
        }
        let (_, byte) = step_read(device, Register::RfCh, Ghost(before), Ghost(steps))?;
        let freq_offset = RfCh(byte).rf_ch();
        proof {
            lemma_finish(before, device.history(), steps);
        }
        Ok(freq_offset)
    }

    /// Sets the frequency channel, which must be below 126.
    fn set_frequency(&mut self, freq_offset: u8) -> (result: Result<(), D::Error>)
        requires
            freq_offset < 126,
        ensures
            ran(
                old(self).held().history(),
                final(self).held().history(),
                single(Request::WriteRegister(Register::RfCh, freq_offset)),
            ),
            result == verdict(old(self).held().history(), final(self).held().history()),
    {
        let device = self.device();
        let ghost before = device.history();
        let ghost steps = single(Request::WriteRegister(Register::RfCh, freq_offset));
        proof {
            lemma_start(before, steps);
        }
        let mut register = RfCh(0);
        register.set_rf_ch(freq_offset);
        step_write(device, Register::RfCh, register.0, Ghost(before), Ghost(steps))?;
        proof {
            lemma_finish(before, device.history(), steps);
        }
        Ok(())
    }

    /// Sets the air data rate and the output power, from 0 for -18 dBm to 3
    /// for 0 dBm. The power must be below 4.
    fn set_rf(&mut self, rate: &DataRate, power: u8) -> (result: Result<(), D::Error>)
        requires
            power < 4,
        ensures
            ran(
                old(self).held().history(),
                final(self).held().history(),
                single(
                    Request::WriteRegister(Register::RfSetup, rf_setup_value(*rate, power)),
                ),
            ),
            result == verdict(old(self).held().history(), final(self).held().history()),
    {
        let device = self.device();
        let ghost before = device.history();
        let ghost steps = single(
            Request::WriteRegister(Register::RfSetup, rf_setup_value(*rate, power)),
        );
        proof {
            lemma_start(before, steps);
        }
        let register = rf_setup(rate, power);
        step_write(device, Register::RfSetup, register.0, Ghost(before), Ghost(steps))?;
        proof {
            lemma_finish(before, device.history(), steps);
        }
        Ok(())
    }

    /// Sets the CRC mode by a read-modify-write of CONFIG that leaves every
    /// other bit as it is.
    fn set_crc(&mut self, mode: CrcMode) -> (result: Result<(), D::Error>)
        ensures
            ran(
                old(self).held().history(),
                final(self).held().history(),
                crc_steps(mode),
            ),
            result == verdict(old(self).held().history(), final(self).held().history()),
    {
        let device = self.device();
        let ghost before = device.history();
        let ghost steps = crc_steps(mode);
        proof {
            lemma_start(before, steps);
        }
        let (_, byte) = step_read(device, Register::Config, Ghost(before), Ghost(steps))?;
        let mut config = Config(byte);
        mode.set_config(&mut config);
        step_write(device, Register::Config, config.0, Ghost(before), Ghost(steps))?;
        proof {
            lemma_finish(before, device.history(), steps);
        }
        Ok(())
    }

    /// Sets the interrupt mask by a read-modify-write of CONFIG that leaves
    /// every other bit as it is.
    ///
    /// An interrupt whose mask is `true` does not show on the IRQ pin; one
    /// whose mask is `false` does.
    fn set_interrupt_mask(
        &mut self,
        data_ready_rx: bool,
        data_sent_tx: bool,
        max_retransmits_tx: bool,
    ) -> (result: Result<
        (),
        D::Error,
    >)
        ensures
            ran(
                old(self).held().history(),
                final(self).held().history(),
                interrupt_mask_steps(data_ready_rx, data_sent_tx, max_retransmits_tx),
            ),
            result == verdict(old(self).held().history(), final(self).held().history()),
    {
        let device = self.device();
        let ghost before = device.history();
        let ghost steps = interrupt_mask_steps(data_ready_rx, data_sent_tx, max_retransmits_tx);
        proof {
            lemma_start(before, steps);
        }
        let (_, byte) = step_read(device, Register::Config, Ghost(before), Ghost(steps))?;
        let mut config = Config(byte);
        config.set_mask_rx_dr(data_ready_rx);
        config.set_mask_tx_ds(data_sent_tx);
        config.set_mask_max_rt(max_retransmits_tx);
        step_write(device, Register::Config, config.0, Ghost(before), Ghost(steps))?;
        proof {
            lemma_finish(before, device.history(), steps);
        }
        Ok(())
    }

    /// Enables the receive pipes whose flag is set and disables the others.
    fn set_pipes_rx_enable(&mut self, bools: &[bool; PIPES_COUNT]) -> (result: Result<
        (),
        D::Error,
    >)
        ensures
            ran(
                old(self).held().history(),
                final(self).held().history(),
                single(Request::WriteRegister(Register::EnRxaddr, packed(bools@))),
            ),
            result == verdict(old(self).held().history(), final(self).held().history()),
    {
        let device = self.device();
        let ghost before = device.history();
        let ghost steps = single(Request::WriteRegister(Register::EnRxaddr, packed(bools@)));
        proof {
            lemma_start(before, steps);
        }
        let register = EnRxaddr::from_bools(bools);
        step_write(device, Register::EnRxaddr, register.0, Ghost(before), Ghost(steps))?;
        proof {
            lemma_finish(before, device.history(), steps);
        }
        Ok(())
    }

    /// Sets the address of receive pipe `pipe_no`, which must be below 6.
    /// The address goes to the pipe's address register as it is.
    fn set_rx_addr(&mut self, pipe_no: usize, addr: &[u8]) -> (result: Result<(), D::Error>)
        requires
            pipe_no < PIPES_COUNT,
        ensures
            ran(
                old(self).held().history(),
                final(self).held().history(),
                single(Request::WriteAddress(Register::rx_addr(pipe_no), addr@)),
            ),
            result == verdict(old(self).held().history(), final(self).held().history()),
    {
        let device = self.device();
        let ghost before = device.history();
        let ghost steps = single(Request::WriteAddress(Register::rx_addr(pipe_no), addr@));
        proof {
            lemma_start(before, steps);
        }
        let register = Register::rx_addr(pipe_no);
        step_write_address(device, register, addr, Ghost(before), Ghost(steps))?;
        proof {
            lemma_finish(before, device.history(), steps);
        }
        Ok(())
    }

    /// Sets the address that packets are sent to.
    fn set_tx_addr(&mut self, addr: &[u8]) -> (result: Result<(), D::Error>)
        ensures
            ran(
                old(self).held().history(),
                final(self).held().history(),
                single(Request::WriteAddress(Register::TxAddr, addr@)),
            ),
            result == verdict(old(self).held().history(), final(self).held().history()),
    {
        let device = self.device();
        let ghost before = device.history();
        let ghost steps = single(Request::WriteAddress(Register::TxAddr, addr@));
        proof {
            lemma_start(before, steps);
        }
        step_write_address(device, Register::TxAddr, addr, Ghost(before), Ghost(steps))?;
        proof {
            lemma_finish(before, device.history(), steps);
        }
        Ok(())
    }

    /// Sets the delay between retransmissions and their number.
    ///
    /// To switch retransmission off, call as `set_auto_retransmit(0, 0)`.
    fn set_auto_retransmit(&mut self, delay: u8, count: u8) -> (result: Result<(), D::Error>)
        ensures
            ran(
                old(self).held().history(),
                final(self).held().history(),
                single(
                    Request::WriteRegister(
                        Register::SetupRetr,
                        auto_retransmit_value(delay, count),
                    ),
                ),
            ),
            result == verdict(old(self).held().history(), final(self).held().history()),
    {
        let device = self.device();
        let ghost before = device.history();
        let ghost steps = single(
            Request::WriteRegister(Register::SetupRetr, auto_retransmit_value(delay, count)),
        );
        proof {
            lemma_start(before, steps);
        }
        let register = auto_retransmit(delay, count);
        step_write(device, Register::SetupRetr, register.0, Ghost(before), Ghost(steps))?;
        proof {
            lemma_finish(before, device.history(), steps);
        }
        Ok(())
    }

    /// Reads for each pipe whether it acknowledges automatically.
    fn get_auto_ack(&mut self) -> (result: Result<[bool; PIPES_COUNT], D::Error>)
        ensures
            ran(
                old(self).held().history(),
                final(self).held().history(),
                single(Request::ReadRegister(Register::EnAa)),
            ),
            outcome_of(result) == verdict(old(self).held().history(), final(self).held().history()),
            result matches Ok(bools) ==> bools@ == unpacked(
                byte_of(final(self).held().history().last()),
            ),
    {
        let device = self.device();
        let ghost before = device.history();
        let ghost steps = single(Request::ReadRegister(Register::EnAa));
        proof {
            lemma_start(before, steps);
        }
        let (_, byte) = step_read(device, Register::EnAa, Ghost(before), Ghost(steps))?;
        let bools = EnAa(byte).to_bools();
        proof {
            lemma_finish(before, device.history(), steps);
        }
        Ok(bools)
    }

    /// Switches automatic acknowledgement on for the pipes whose flag is set
    /// and off for the others.
    fn set_auto_ack(&mut self, bools: &[bool; PIPES_COUNT]) -> (result: Result<(), D::Error>)
        ensures
            ran(
                old(self).held().history(),
                final(self).held().history(),
                single(Request::WriteRegister(Register::EnAa, packed(bools@))),
            ),
            result == verdict(old(self).held().history(), final(self).held().history()),
    {
        let device = self.device();
        let ghost before = device.history();
        let ghost steps = single(Request::WriteRegister(Register::EnAa, packed(bools@)));
        proof {
            lemma_start(before, steps);
        }
        let register = auto_ack(bools);
        step_write(device, Register::EnAa, register.0, Ghost(before), Ghost(steps))?;
        proof {
            lemma_finish(before, device.history(), steps);
        }
        Ok(())
    }

    /// Reads the address width in bytes: the raw two-bit field plus 2.
    fn get_address_width(&mut self) -> (result: Result<u8, D::Error>)
        ensures
            ran(
                old(self).held().history(),
                final(self).held().history(),
                single(Request::ReadRegister(Register::SetupAw)),
            ),
            outcome_of(result) == verdict(old(self).held().history(), final(self).held().history()),
            result matches Ok(width) ==> width == 2 + SetupAw(
                byte_of(final(self).held().history().last()),
            ).aw(),
    {
        let device = self.device();
        let ghost before = device.history();
        let ghost steps = single(Request::ReadRegister(Register::SetupAw));
        proof {
            lemma_start(before, steps);
        }
        let (_, byte) = step_read(device, Register::SetupAw, Ghost(before), Ghost(steps))?;
        let width = 2 + SetupAw(byte).aw();
        proof {
            lemma_finish(before, device.history(), steps);
        }
        Ok(width)
    }

    /// Reads which interrupts are pending, as `(RX_DR, TX_DS, MAX_RT)`, and
    /// clears none: the status byte comes with a command that does nothing.
    fn get_interrupts(&mut self) -> (result: Result<(bool, bool, bool), D::Error>)
        ensures
            ran(
                old(self).held().history(),
                final(self).held().history(),
                single(Request::Command(Command::Nop)),
            ),
            outcome_of(result) == verdict(old(self).held().history(), final(self).held().history()),
            result matches Ok(pending) ==> pending == ({
                let status = status_of(final(self).held().history().last());
                (status.rx_dr(), status.tx_ds(), status.max_rt())
            }),
    {
        let device = self.device();
        let ghost before = device.history();
        let ghost steps = single(Request::Command(Command::Nop));
        proof {
            lemma_start(before, steps);
        }
        let status = step_command(device, Command::Nop, Ghost(before), Ghost(steps))?;
        let pending = (status.rx_dr(), status.tx_ds(), status.max_rt());
        proof {
            lemma_finish(before, device.history(), steps);
        }
        Ok(pending)
    }

    /// Clears all three interrupts and returns those that were pending.
    ///
    /// The chip clears an interrupt where a one is written to its bit of
    /// STATUS, and it shifts the status byte out before it carries the write
    /// out, so what comes back is the state before the clearing.
    fn clear_interrupts(&mut self) -> (result: Result<Interrupts, D::Error>)
        ensures
            ran(
                old(self).held().history(),
                final(self).held().history(),
                single(Request::WriteRegister(Register::Status, 0x70)),
            ),
            outcome_of(result) == verdict(old(self).held().history(), final(self).held().history()),
            result matches Ok(pending) ==> pending == Interrupts::from_status(
                status_of(final(self).held().history().last()),
            ),
    {
        let device = self.device();
        let ghost before = device.history();
        let ghost steps = single(Request::WriteRegister(Register::Status, 0x70));
        proof {
            lemma_start(before, steps);
        }
        let mut clear = Status(0);
        clear.set_rx_dr(true);
        clear.set_tx_ds(true);
        clear.set_max_rt(true);
        let status = step_write(device, Register::Status, clear.0, Ghost(before), Ghost(steps))?;
        let pending = Interrupts::from_status(status);
        proof {
            lemma_finish(before, device.history(), steps);
        }
        Ok(pending)
    }

    /// Sets the payload length of every pipe: `None` for a dynamic length,
    /// `Some(n)` for the static length `n`, where 0 leaves the pipe unused.
    ///
    /// The dynamic payload feature and the per-pipe dynamic flags are
    /// written only if some pipe is dynamic; the static widths always are.
    /// The writes are not atomic: where one fails, those before it stay.
    fn set_pipes_rx_lengths(&mut self, lengths: &[Option<u8>; PIPES_COUNT]) -> (result: Result<
        (),
        D::Error,
    >)
        ensures
            ran(
                old(self).held().history(),
                final(self).held().history(),
                rx_lengths_steps(lengths@),
            ),
            result == verdict(old(self).held().history(), final(self).held().history()),
    {
        write_rx_lengths(self.device(), lengths)
    }
}

} // verus!
