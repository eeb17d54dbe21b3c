use st7066u::cmd::{Command, Direction, Font, Lines, Shift};
use st7066u::diff::Operation;
use st7066u::driver::{Driver, Exchange, Signal};
use st7066u::transfer::Outcome;

/// Sends the signals of an exchange to a controller that shows `shown` on a
/// read and fails at the signal with the index `broken`.
fn run(exchange: &mut Exchange<u32>, shown: u8, broken: Option<usize>) -> Vec<Signal> {
    let mut sent = Vec::new();
    while let Some(signal) = exchange.next() {
        let outcome = if broken == Some(sent.len()) {
            Outcome::Failed(sent.len() as u32)
        } else {
            match signal {
                Signal::Read => Outcome::Got(shown),
                _ => Outcome::Done,
            }
        };
        sent.push(signal);
        exchange.answer(outcome);
    }
    sent
}

fn exec_signals(byte: u8, time: u32) -> Vec<Signal> {
    vec![
        Signal::RegisterSelect(false),
        Signal::ReadWrite(false),
        Signal::Write(byte),
        Signal::Enable(true),
        Signal::Enable(false),
        Signal::Delay(time),
    ]
}

#[test]
fn setup_lowers_the_enable_line() {
    let mut exchange = Driver::setup();
    assert_eq!(run(&mut exchange, 0, None), vec![Signal::Enable(false)]);
    assert_eq!(exchange.finish(), Ok(()));
}

#[test]
fn exec_sends_the_command() {
    let mut exchange = Driver::exec(Command::Clear());
    assert_eq!(run(&mut exchange, 0, None), exec_signals(0x01, 1600));
    assert_eq!(exchange.finish(), Ok(()));

    let mut exchange = Driver::exec(Command::ReturnHome());
    assert_eq!(run(&mut exchange, 0, None), exec_signals(0x02, 1600));

    let mut exchange = Driver::exec(Command::DdRamAddress(0x40));
    assert_eq!(run(&mut exchange, 0, None), exec_signals(0xc0, 40));
    assert_eq!(exchange.finish(), Ok(()));
}

#[test]
fn write_sends_the_byte() {
    let mut exchange = Driver::write(0x48);
    assert_eq!(
        run(&mut exchange, 0, None),
        vec![
            Signal::RegisterSelect(true),
            Signal::ReadWrite(false),
            Signal::Write(0x48),
            Signal::Enable(true),
            Signal::Enable(false),
            Signal::Delay(37),
        ]
    );
    assert_eq!(exchange.finish(), Ok(()));
}

#[test]
fn read_takes_the_byte() {
    let mut exchange = Driver::read();
    assert_eq!(
        run(&mut exchange, 0x5a, None),
        vec![
            Signal::RegisterSelect(true),
            Signal::ReadWrite(true),
            Signal::Enable(true),
            Signal::Read,
            Signal::Enable(false),
            Signal::Delay(37),
        ]
    );
    assert_eq!(Driver::received(exchange), Ok(0x5a));
}

#[test]
fn read_address_counter_takes_the_byte() {
    let mut exchange = Driver::read_address_counter();
    assert_eq!(
        run(&mut exchange, 0x87, None),
        vec![
            Signal::RegisterSelect(false),
            Signal::ReadWrite(true),
            Signal::Write(0),
            Signal::Enable(true),
            Signal::Read,
            Signal::Enable(false),
            Signal::Delay(1),
        ]
    );
    assert_eq!(Driver::received(exchange), Ok(0x87));
}

#[test]
fn busy_flag_is_the_top_bit() {
    assert!(Driver::is_busy(0x80));
    assert!(Driver::is_busy(0xff));
    assert!(Driver::is_busy(0x87));
    assert!(!Driver::is_busy(0x7f));
    assert!(!Driver::is_busy(0x00));
}

#[test]
fn failure_stops_the_exchange() {
    for broken in 0..5 {
        let mut exchange = Driver::exec(Command::Clear());
        let sent = run(&mut exchange, 0, Some(broken));
        assert_eq!(sent, exec_signals(0x01, 1600)[..broken + 1].to_vec());
        assert_eq!(exchange.finish(), Err(broken as u32));
    }
    let mut exchange = Driver::write(1);
    assert_eq!(run(&mut exchange, 0, Some(2)).len(), 3);
    assert_eq!(exchange.finish(), Err(2));
}

#[test]
fn failed_read_still_lowers_the_enable_line() {
    let mut exchange = Driver::read();
    let sent = run(&mut exchange, 0x5a, Some(3));
    assert_eq!(sent.len(), 6);
    assert_eq!(sent[3], Signal::Read);
    assert_eq!(sent[4], Signal::Enable(false));
    assert_eq!(Driver::received(exchange), Err(3));

    let mut exchange = Driver::read_address_counter();
    let sent = run(&mut exchange, 0x5a, Some(4));
    assert_eq!(sent.len(), 7);
    assert_eq!(sent[5], Signal::Enable(false));
    assert_eq!(Driver::received(exchange), Err(4));
}

#[test]
fn failure_before_the_read_stops_the_exchange() {
    let mut exchange = Driver::read();
    let sent = run(&mut exchange, 0x5a, Some(2));
    assert_eq!(sent.len(), 3);
    assert_eq!(Driver::received(exchange), Err(2));

    let mut exchange = Driver::read();
    let sent = run(&mut exchange, 0x5a, Some(4));
    assert_eq!(sent.len(), 5);
    assert_eq!(Driver::received(exchange), Err(4));
}

#[test]
fn perform_executes_or_writes() {
    let mut exchange = Driver::perform(Operation::Exec(Command::CgRamAddress(8)));
    assert_eq!(run(&mut exchange, 0, None), exec_signals(0x48, 40));
    let mut exchange = Driver::perform(Operation::Write(9));
    let sent = run(&mut exchange, 0, None);
    assert_eq!(sent[0], Signal::RegisterSelect(true));
    assert_eq!(sent[2], Signal::Write(9));
    assert_eq!(sent[5], Signal::Delay(37));
}

#[test]
fn commands_by_name() {
    let signals = |mut exchange: Exchange<u32>| run(&mut exchange, 0, None);
    assert_eq!(signals(Driver::clear()), exec_signals(0x01, 1600));
    assert_eq!(signals(Driver::return_home()), exec_signals(0x02, 1600));
    assert_eq!(signals(Driver::entry_mode_set(Direction::Right, false)), exec_signals(0x06, 40));
    assert_eq!(signals(Driver::onoff(true, false, false)), exec_signals(0x0c, 40));
    assert_eq!(signals(Driver::shift(Shift::Display(Direction::Left))), exec_signals(0x18, 40));
    assert_eq!(signals(Driver::function_set(Lines::Two, Font::Size5x8)), exec_signals(0x38, 40));
    assert_eq!(signals(Driver::set_cgram_address(0x08)), exec_signals(0x48, 40));
    assert_eq!(signals(Driver::set_ddram_address(0x40)), exec_signals(0xc0, 40));
}
