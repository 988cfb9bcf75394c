use lm75::bus::I2cBus;
use lm75::device_impl::Register;
use lm75::{ic, Address, Error, FaultQueue, Lm75, OsMode, OsPolarity};

const ADDR: u8 = 0b100_1000;

#[derive(Debug, Clone, PartialEq)]
enum Expected {
    Write(u8, Vec<u8>),
    WriteRead(u8, Vec<u8>, Vec<u8>),
}

/// A bus transport that checks each transaction against a scripted list and
/// panics on any deviation.
struct I2cMock {
    expected: Vec<Expected>,
    position: usize,
}

impl I2cMock {
    fn new(expected: &[Expected]) -> Self {
        I2cMock { expected: expected.to_vec(), position: 0 }
    }

    fn done(&self) {
        assert_eq!(self.position, self.expected.len(), "not all expected transactions were run");
    }
}

impl I2cBus for I2cMock {
    type Error = ();

    fn write(&mut self, addr: u8, bytes: &[u8]) -> Result<(), ()> {
        let expected = self.expected.get(self.position).expect("unexpected bus transaction");
        self.position += 1;
        match expected {
            Expected::Write(a, b) => {
                assert_eq!(*a, addr, "write to an unexpected address");
                assert_eq!(b.as_slice(), bytes, "unexpected bytes written");
                Ok(())
            }
            Expected::WriteRead(_, _, _) => panic!("expected a write-read, got a write"),
        }
    }

    fn write_read(&mut self, addr: u8, bytes: &[u8], read_len: usize) -> Result<Vec<u8>, ()> {
        let expected = self.expected.get(self.position).expect("unexpected bus transaction");
        self.position += 1;
        match expected {
            Expected::WriteRead(a, b, response) => {
                assert_eq!(*a, addr, "write-read to an unexpected address");
                assert_eq!(b.as_slice(), bytes, "unexpected bytes written");
                assert_eq!(response.len(), read_len, "unexpected reply length requested");
                Ok(response.clone())
            }
            Expected::Write(_, _) => panic!("expected a write, got a write-read"),
        }
    }
}

fn new(transactions: &[Expected]) -> Lm75<I2cMock, ic::Lm75> {
    Lm75::new(I2cMock::new(transactions), Address::default())
}

fn new_pct2075(transactions: &[Expected]) -> Lm75<I2cMock, ic::Pct2075> {
    Lm75::new_pct2075(I2cMock::new(transactions), Address::default())
}

fn destroy(sensor: Lm75<I2cMock, ic::Lm75>) {
    sensor.destroy().done();
}

fn destroy_pct2075(sensor: Lm75<I2cMock, ic::Pct2075>) {
    sensor.destroy().done();
}

fn assert_invalid_input_data_error<T, E>(result: Result<T, Error<E>>) {
    match result {
        Err(Error::InvalidInputData) => (),
        _ => panic!("Did not return Error::InvalidInputData."),
    }
}

/// Quantize degrees Celsius to eighths of a degree, truncating toward zero.
fn eighths(temp: f32) -> i16 {
    (temp / 0.125) as i16
}

#[test]
fn can_create_and_destroy_new() {
    let sensor = new(&[]);
    destroy(sensor);
}

#[test]
fn can_create_and_destroy_new_pct2075() {
    let sensor = new_pct2075(&[]);
    destroy_pct2075(sensor);
}

#[test]
fn can_enable() {
    let mut sensor = new(&[Expected::Write(ADDR, vec![Register::CONFIGURATION, 0])]);
    sensor.enable().unwrap();
    destroy(sensor);
}

#[test]
fn can_disable() {
    let mut sensor = new(&[Expected::Write(ADDR, vec![Register::CONFIGURATION, 1])]);
    sensor.disable().unwrap();
    destroy(sensor);
}

#[test]
fn can_read_temperature() {
    let mut sensor = new(&[Expected::WriteRead(
        ADDR,
        vec![Register::TEMPERATURE],
        vec![0b1110_0111, 0b1010_0101], // -24.5
    )]);
    let temp = sensor.read_temperature().unwrap() as f32 * 0.125;
    assert!(-24.4 > temp);
    assert!(-24.6 < temp);
    destroy(sensor);
}

#[test]
fn can_read_sample_rate() {
    let mut sensor = new_pct2075(&[Expected::WriteRead(
        ADDR,
        vec![Register::T_IDLE],
        vec![0b0000_0001], // 100ms
    )]);
    let period = sensor.read_sample_rate().unwrap();
    assert_eq!(100, period);
    destroy_pct2075(sensor);
}

#[test]
fn can_set_fault_queue_1() {
    let mut sensor = new(&[Expected::Write(ADDR, vec![Register::CONFIGURATION, 0b0000_0000])]);
    sensor.set_fault_queue(FaultQueue::_1).unwrap();
    destroy(sensor);
}

#[test]
fn can_set_fault_queue_2() {
    let mut sensor = new(&[Expected::Write(ADDR, vec![Register::CONFIGURATION, 0b0000_1000])]);
    sensor.set_fault_queue(FaultQueue::_2).unwrap();
    destroy(sensor);
}

#[test]
fn can_set_fault_queue_4() {
    let mut sensor = new(&[Expected::Write(ADDR, vec![Register::CONFIGURATION, 0b0001_0000])]);
    sensor.set_fault_queue(FaultQueue::_4).unwrap();
    destroy(sensor);
}

#[test]
fn can_set_fault_queue_6() {
    let mut sensor = new(&[Expected::Write(ADDR, vec![Register::CONFIGURATION, 0b0001_1000])]);
    sensor.set_fault_queue(FaultQueue::_6).unwrap();
    destroy(sensor);
}

#[test]
fn can_set_os_polarity_low() {
    let mut sensor = new(&[Expected::Write(ADDR, vec![Register::CONFIGURATION, 0b0000_0000])]);
    sensor.set_os_polarity(OsPolarity::ActiveLow).unwrap();
    destroy(sensor);
}

#[test]
fn can_set_os_polarity_high() {
    let mut sensor = new(&[Expected::Write(ADDR, vec![Register::CONFIGURATION, 0b0000_0100])]);
    sensor.set_os_polarity(OsPolarity::ActiveHigh).unwrap();
    destroy(sensor);
}

#[test]
fn can_set_os_mode_low() {
    let mut sensor = new(&[Expected::Write(ADDR, vec![Register::CONFIGURATION, 0b0000_0000])]);
    sensor.set_os_mode(OsMode::Comparator).unwrap();
    destroy(sensor);
}

#[test]
fn can_set_os_mode_high() {
    let mut sensor = new(&[Expected::Write(ADDR, vec![Register::CONFIGURATION, 0b0000_0010])]);
    sensor.set_os_mode(OsMode::Interrupt).unwrap();
    destroy(sensor);
}

#[test]
fn can_set_os_temp_0_5() {
    let mut sensor = new(&[Expected::Write(ADDR, vec![Register::T_OS, 0b0000_0000, 0b1000_0000])]);
    sensor.set_os_temperature(eighths(0.5)).unwrap();
    destroy(sensor);
}

#[test]
fn can_set_os_temp_min() {
    let mut sensor = new(&[Expected::Write(ADDR, vec![Register::T_OS, 0b1100_1001, 0])]);
    sensor.set_os_temperature(eighths(-55.0)).unwrap();
    destroy(sensor);
}

#[test]
fn can_set_os_temp_max() {
    let mut sensor = new(&[Expected::Write(ADDR, vec![Register::T_OS, 0b0111_1101, 0])]);
    sensor.set_os_temperature(eighths(125.0)).unwrap();
    destroy(sensor);
}

#[test]
fn set_os_temperature_too_low() {
    let mut sensor = new(&[]);
    assert_invalid_input_data_error(sensor.set_os_temperature(eighths(-55.5)));
    destroy(sensor);
}

#[test]
fn set_os_temperature_too_high() {
    let mut sensor = new(&[]);
    assert_invalid_input_data_error(sensor.set_os_temperature(eighths(125.5)));
    destroy(sensor);
}

#[test]
fn can_set_hyst_temp_0_5() {
    let mut sensor = new(&[Expected::Write(
        ADDR,
        vec![Register::T_HYST, 0b0000_0000, 0b1000_0000],
    )]);
    sensor.set_hysteresis_temperature(eighths(0.5)).unwrap();
    destroy(sensor);
}

#[test]
fn can_set_hyst_temp_min() {
    let mut sensor = new(&[Expected::Write(ADDR, vec![Register::T_HYST, 0b1100_1001, 0])]);
    sensor.set_hysteresis_temperature(eighths(-55.0)).unwrap();
    destroy(sensor);
}

#[test]
fn can_set_hyst_temp_max() {
    let mut sensor = new(&[Expected::Write(ADDR, vec![Register::T_HYST, 0b0111_1101, 0])]);
    sensor.set_hysteresis_temperature(eighths(125.0)).unwrap();
    destroy(sensor);
}

#[test]
fn set_hyst_temperature_too_low() {
    let mut sensor = new(&[]);
    assert_invalid_input_data_error(sensor.set_hysteresis_temperature(eighths(-55.5)));
    destroy(sensor);
}

#[test]
fn set_hyst_temperature_too_high() {
    let mut sensor = new(&[]);
    assert_invalid_input_data_error(sensor.set_hysteresis_temperature(eighths(125.5)));
    destroy(sensor);
}

#[test]
fn can_set_max_sample_rate() {
    let mut sensor = new_pct2075(&[Expected::Write(ADDR, vec![Register::T_IDLE, 0b0001_1111])]);
    sensor.set_sample_rate(3100).unwrap();
    destroy_pct2075(sensor);
}

#[test]
fn can_set_custom_sample_rate() {
    let mut sensor = new_pct2075(&[Expected::Write(ADDR, vec![Register::T_IDLE, 0b0000_1111])]);
    sensor.set_sample_rate(1500).unwrap();
    destroy_pct2075(sensor);
}

#[test]
fn can_set_default_sample_rate() {
    let mut sensor = new_pct2075(&[Expected::Write(ADDR, vec![Register::T_IDLE, 0b0000_0001])]);
    sensor.set_sample_rate(100).unwrap();
    destroy_pct2075(sensor);
}

#[test]
fn set_sample_rate_too_high() {
    let mut sensor = new_pct2075(&[]);
    assert_invalid_input_data_error(sensor.set_sample_rate(4000));
    destroy_pct2075(sensor);
}

#[test]
fn set_non_multiple_sample_rate() {
    let mut sensor = new_pct2075(&[]);
    assert_invalid_input_data_error(sensor.set_sample_rate(1234));
    destroy_pct2075(sensor);
}

#[test]
fn pct2075_reads_temperature_at_11_bit_resolution() {
    let mut sensor = new_pct2075(&[Expected::WriteRead(
        ADDR,
        vec![Register::TEMPERATURE],
        vec![0b0001_1001, 0b0110_0000], // 25.375
    )]);
    let temp = sensor.read_temperature().unwrap();
    assert_eq!(temp, 203); // 25.375 degrees in eighths
    destroy_pct2075(sensor);
}

/// A transport whose transactions all fail.
struct BrokenBus;

impl I2cBus for BrokenBus {
    type Error = u8;

    fn write(&mut self, _addr: u8, _bytes: &[u8]) -> Result<(), u8> {
        Err(7)
    }

    fn write_read(&mut self, _addr: u8, _bytes: &[u8], _read_len: usize) -> Result<Vec<u8>, u8> {
        Err(7)
    }
}

#[test]
fn bus_error_is_forwarded() {
    let mut sensor: Lm75<BrokenBus, ic::Lm75> = Lm75::new(BrokenBus, Address::default());
    match sensor.disable() {
        Err(Error::I2C(e)) => assert_eq!(e, 7),
        _ => panic!("expected the transport's error to be forwarded"),
    }
    match sensor.read_temperature() {
        Err(Error::I2C(e)) => assert_eq!(e, 7),
        _ => panic!("expected the transport's error to be forwarded"),
    }
}
