use berryimu::axes::axes_from_registers;
use berryimu::bus::{BlockBus, FullDuplex, RegisterBus, SpiRegisters};
use berryimu::handshake::{connect, Handshake, Phase, Request};
use berryimu::registers::SensorKind;
use berryimu::{i2c, spi, Error};

/// A simulated device: a register file, a log of writes, and faults to inject.
#[derive(Clone)]
struct SimDevice {
    regs: [u8; 256],
    writes: Vec<(u8, u8)>,
    single_reads: Vec<u8>,
    block_reads: Vec<(u8, u8)>,
    fail_read_of: Option<u8>,
    fail_write_number: Option<usize>,
    block_truncated_to: Option<usize>,
}

impl SimDevice {
    fn with_identity(identity: u8) -> Self {
        let mut regs = [0u8; 256];
        regs[0x0F] = identity;
        SimDevice {
            regs,
            writes: Vec::new(),
            single_reads: Vec::new(),
            block_reads: Vec::new(),
            fail_read_of: None,
            fail_write_number: None,
            block_truncated_to: None,
        }
    }
}

impl RegisterBus for SimDevice {
    type Error = String;

    fn read_register(&mut self, register: u8) -> Result<u8, String> {
        self.single_reads.push(register);
        if self.fail_read_of == Some(register) {
            return Err(format!("read of {register:#x} failed"));
        }
        Ok(self.regs[register as usize])
    }

    fn write_register(&mut self, register: u8, value: u8) -> Result<(), String> {
        if self.fail_write_number == Some(self.writes.len()) {
            return Err("write failed".to_string());
        }
        self.writes.push((register, value));
        self.regs[register as usize] = value;
        Ok(())
    }
}

impl BlockBus for SimDevice {
    fn read_block(&mut self, register: u8, len: u8) -> Result<Vec<u8>, String> {
        self.block_reads.push((register, len));
        let mut out: Vec<u8> =
            (0..len as usize).map(|i| self.regs[(register as usize + i) % 256]).collect();
        if let Some(n) = self.block_truncated_to {
            out.truncate(n);
        }
        Ok(out)
    }
}

impl RegisterBus for &mut SimDevice {
    type Error = String;

    fn read_register(&mut self, register: u8) -> Result<u8, String> {
        (**self).read_register(register)
    }

    fn write_register(&mut self, register: u8, value: u8) -> Result<(), String> {
        (**self).write_register(register, value)
    }
}

impl BlockBus for &mut SimDevice {
    fn read_block(&mut self, register: u8, len: u8) -> Result<Vec<u8>, String> {
        (**self).read_block(register, len)
    }
}

/// A link that records what is sent and answers every frame with a fixed pair.
struct SimLink {
    sent: Vec<[u8; 2]>,
    answer: [u8; 2],
    fail: bool,
}

impl FullDuplex for SimLink {
    type Error = ();

    fn transfer(&mut self, tx: [u8; 2]) -> Result<[u8; 2], ()> {
        self.sent.push(tx);
        if self.fail {
            Err(())
        } else {
            Ok(self.answer)
        }
    }
}

fn set_outputs(dev: &mut SimDevice, first: u8, bytes: [u8; 6]) {
    for (i, b) in bytes.iter().enumerate() {
        dev.regs[first as usize + i] = *b;
    }
}

#[test]
fn identity_mismatch_issues_no_writes() {
    for kind in [SensorKind::Accelerometer, SensorKind::Gyroscope, SensorKind::Magnetometer] {
        for identity in 0..=255u8 {
            if identity == kind.expected_identity() {
                continue;
            }
            let mut sim = SimDevice::with_identity(identity);
            let r = connect(&mut sim, kind).0;
            assert!(matches!(r, Err(Error::IdentityMismatch)), "{kind:?} {identity:#x}");
            assert_eq!(sim.writes.len(), 0);
            assert_eq!(sim.single_reads, vec![0x0F]);
        }
    }
}

#[test]
fn accelerometer_bring_up_writes_program_in_order() {
    let dev = SimDevice::with_identity(0x6A);
    let dev = connect(dev, SensorKind::Accelerometer).0.unwrap();
    assert_eq!(dev.single_reads, vec![0x0F]);
    assert_eq!(dev.writes, vec![(0x10, 0b10011111), (0x17, 0b11001000), (0x12, 0b01000100)]);
}

#[test]
fn magnetometer_bring_up_writes_program_in_order() {
    let dev = SimDevice::with_identity(0x3D);
    let dev = connect(dev, SensorKind::Magnetometer).0.unwrap();
    assert_eq!(dev.writes, vec![(0x20, 0b11011100), (0x21, 0b00100000), (0x22, 0b00000000)]);
}

#[test]
fn gyroscope_shares_the_accelerometer_identity() {
    let dev = connect(SimDevice::with_identity(0x6A), SensorKind::Gyroscope).0.unwrap();
    assert_eq!(dev.writes, vec![(0x11, 0b10011100)]);
    let r = connect(SimDevice::with_identity(0x3D), SensorKind::Gyroscope).0;
    assert!(matches!(r, Err(Error::IdentityMismatch)));
}

#[test]
fn failed_identity_read_is_transport_error() {
    let mut sim = SimDevice::with_identity(0x6A);
    sim.fail_read_of = Some(0x0F);
    let r = connect(&mut sim, SensorKind::Accelerometer).0;
    assert!(matches!(r, Err(Error::Transport(_))));
    assert!(sim.writes.is_empty());
}

#[test]
fn failed_configuration_write_stops_bring_up() {
    let mut sim = SimDevice::with_identity(0x6A);
    sim.fail_write_number = Some(1);
    let r = connect(&mut sim, SensorKind::Accelerometer).0;
    assert!(matches!(r, Err(Error::Transport(_))));
    assert_eq!(sim.writes, vec![(0x10, 0b10011111)]);
}

#[test]
fn handshake_steps() {
    let mut h: Handshake<()> = Handshake::start(SensorKind::Magnetometer);
    assert_eq!(h.request(), Request::ReadRegister(0x0F));
    h.on_identity(Ok(0x3D));
    assert_eq!(h.request(), Request::WriteRegister(0x20, 0b11011100));
    h.on_write(Ok(()));
    assert_eq!(h.request(), Request::WriteRegister(0x21, 0b00100000));
    h.on_write(Ok(()));
    assert_eq!(h.request(), Request::WriteRegister(0x22, 0b00000000));
    h.on_write(Ok(()));
    assert_eq!(h.request(), Request::Done);
    assert!(matches!(h.phase, Phase::Ready));
    assert!(h.finish().is_ok());
}

#[test]
fn handshake_stops_on_mismatch() {
    let mut h: Handshake<()> = Handshake::start(SensorKind::Accelerometer);
    h.on_identity(Ok(0x3D));
    assert_eq!(h.request(), Request::Done);
    assert!(matches!(h.finish(), Err(Error::IdentityMismatch)));
}

#[test]
fn block_and_single_reads_agree() {
    let bytes = [0xFF, 0x7F, 0x00, 0x80, 0x34, 0x12];
    let mut dev = SimDevice::with_identity(0x6A);
    set_outputs(&mut dev, 0x28, bytes);
    let mut sim = dev.clone();
    let block = i2c::Accelerometer::new(&mut sim).unwrap().read().unwrap();
    assert_eq!(sim.block_reads, vec![(0x28, 6)]);
    assert_eq!(sim.writes.len(), 3);
    let mut sim = dev.clone();
    let singles = spi::Accelerometer::new(&mut sim).unwrap().read().unwrap();
    assert_eq!(sim.single_reads, vec![0x0F, 0x28, 0x29, 0x2A, 0x2B, 0x2C, 0x2D]);
    assert_eq!(block, (32767, -32768, 0x1234));
    assert_eq!(block, singles);
}

#[test]
fn magnetometer_block_matches_its_output_registers() {
    let mut dev = SimDevice::with_identity(0x3D);
    set_outputs(&mut dev, 0x28, [0xE8, 0x03, 0x00, 0x00, 0x18, 0xFC]);
    let mut sim = dev.clone();
    let block = i2c::Magnetometer::new(&mut sim).unwrap().read().unwrap();
    let mut bytes = Vec::new();
    for register in SensorKind::Magnetometer.output_registers() {
        bytes.push(dev.read_register(register).unwrap());
    }
    assert_eq!(block, (1000, 0, -1000));
    assert_eq!(block, axes_from_registers(&bytes));
}

#[test]
fn gyroscope_reads_its_own_registers() {
    let mut dev = SimDevice::with_identity(0x6A);
    set_outputs(&mut dev, 0x22, [0x01, 0x00, 0xFE, 0xFF, 0x00, 0x40]);
    let mut gyro = spi::Gyroscope::new(&mut dev).unwrap();
    assert_eq!(gyro.read().unwrap(), (1, -2, 16384));
    assert_eq!(dev.single_reads, vec![0x0F, 0x22, 0x23, 0x24, 0x25, 0x26, 0x27]);
}

#[test]
fn truncated_block_read_is_short_read() {
    let mut dev = SimDevice::with_identity(0x3D);
    set_outputs(&mut dev, 0x28, [1, 2, 3, 4, 5, 6]);
    dev.block_truncated_to = Some(5);
    let mut mag = i2c::Magnetometer::new(&mut dev).unwrap();
    assert!(matches!(mag.read(), Err(Error::ShortRead)));
}

#[test]
fn failed_single_read_fails_whole_read() {
    let mut dev = SimDevice::with_identity(0x6A);
    dev.fail_read_of = Some(0x2B);
    let mut acc = spi::Accelerometer::new(&mut dev).unwrap();
    assert!(matches!(acc.read(), Err(Error::Transport(_))));
    assert_eq!(dev.single_reads, vec![0x0F, 0x28, 0x29, 0x2A, 0x2B]);
}

#[test]
fn spi_registers_frame_reads_and_writes() {
    let mut bus = SpiRegisters::new(SimLink { sent: Vec::new(), answer: [0x00, 0x6A], fail: false });
    assert_eq!(bus.read_register(0x0F), Ok(0x6A));
    assert_eq!(bus.write_register(0x11, 0b10011100), Ok(()));
    assert_eq!(bus.link.sent, vec![[0x8F, 0x00], [0x11, 0b10011100]]);
}

#[test]
fn spi_gyroscope_bring_up_over_link() {
    let link = SimLink { sent: Vec::new(), answer: [0xFF, 0x6A], fail: false };
    let gyro = spi::Gyroscope::new(SpiRegisters::new(link));
    assert!(gyro.is_ok());
    let link = SimLink { sent: Vec::new(), answer: [0x6A, 0x3D], fail: false };
    assert!(matches!(spi::Gyroscope::new(SpiRegisters::new(link)), Err(Error::IdentityMismatch)));
    let link = SimLink { sent: Vec::new(), answer: [0, 0], fail: true };
    assert!(matches!(spi::Accelerometer::new(SpiRegisters::new(link)), Err(Error::Transport(()))));
}
