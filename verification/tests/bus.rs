use st7066u::bus::{Bus, LineSignal, LineTransfer, Mode};
use st7066u::transfer::Outcome;

/// Sends the signals of a transfer to lines that show `shown` and fail at
/// the signal with the index `broken`.
fn run(transfer: &mut LineTransfer<u32>, shown: u8, broken: Option<usize>) -> Vec<LineSignal> {
    let mut sent = Vec::new();
    while let Some(signal) = transfer.next() {
        let outcome = if broken == Some(sent.len()) {
            Outcome::Failed(sent.len() as u32)
        } else {
            match signal {
                LineSignal::Sense { line } => Outcome::Got(shown & (1 << line) != 0),
                _ => Outcome::Done,
            }
        };
        sent.push(signal);
        transfer.answer(outcome);
    }
    sent
}

fn drives(value: u8) -> Vec<LineSignal> {
    (0..8).map(|line| LineSignal::Drive { line, high: value & (1 << line) != 0 }).collect()
}

fn senses() -> Vec<LineSignal> {
    (0..8).map(|line| LineSignal::Sense { line }).collect()
}

#[test]
fn new_bus_knows_nothing() {
    assert_eq!(Bus::new().mode(), Mode::Uninitialized);
}

#[test]
fn first_write_sets_the_lines_up() {
    let mut bus = Bus::new();
    let mut transfer = bus.write(0b1010_0011);
    let sent = run(&mut transfer, 0, None);
    let mut expected = vec![LineSignal::Emit];
    expected.extend(drives(0b1010_0011));
    assert_eq!(sent, expected);
    assert_eq!(sent[1], LineSignal::Drive { line: 0, high: true });
    assert_eq!(sent[3], LineSignal::Drive { line: 2, high: false });
    assert_eq!(sent[8], LineSignal::Drive { line: 7, high: true });
    assert_eq!(bus.done(transfer), Ok(()));
    assert_eq!(bus.mode(), Mode::DrivingOutput);
}

#[test]
fn second_write_only_drives() {
    let mut bus = Bus::new();
    let mut transfer = bus.write(1);
    run(&mut transfer, 0, None);
    assert_eq!(bus.done(transfer), Ok(()));
    let mut transfer = bus.write(0x5a);
    assert_eq!(run(&mut transfer, 0, None), drives(0x5a));
    assert_eq!(bus.done(transfer), Ok(()));
    assert_eq!(bus.mode(), Mode::DrivingOutput);
}

#[test]
fn read_switches_and_gives_the_byte() {
    let mut bus = Bus::new();
    let mut transfer = bus.write(1);
    run(&mut transfer, 0, None);
    assert_eq!(bus.done(transfer), Ok(()));

    let mut transfer = bus.read();
    let sent = run(&mut transfer, 0b1100_0101, None);
    let mut expected = vec![LineSignal::Listen];
    expected.extend(senses());
    assert_eq!(sent, expected);
    assert_eq!(bus.sensed(transfer), Ok(0b1100_0101));
    assert_eq!(bus.mode(), Mode::SensingInput);

    let mut transfer = bus.read();
    assert_eq!(run(&mut transfer, 0xff, None), senses());
    assert_eq!(bus.sensed(transfer), Ok(0xff));

    let mut transfer = bus.read();
    run(&mut transfer, 0x00, None);
    assert_eq!(bus.sensed(transfer), Ok(0x00));

    let mut transfer = bus.write(3);
    assert_eq!(run(&mut transfer, 0, None)[0], LineSignal::Emit);
    assert_eq!(bus.done(transfer), Ok(()));
    assert_eq!(bus.mode(), Mode::DrivingOutput);
}

#[test]
fn read_gives_every_byte() {
    let mut bus = Bus::new();
    for shown in 0..=255u8 {
        let mut transfer = bus.read();
        run(&mut transfer, shown, None);
        assert_eq!(bus.sensed(transfer), Ok(shown));
    }
}

#[test]
fn make_input_and_make_output() {
    let mut bus = Bus::new();
    let mut transfer = bus.make_input();
    assert_eq!(run(&mut transfer, 0, None), vec![LineSignal::Listen]);
    assert_eq!(bus.done(transfer), Ok(()));
    assert_eq!(bus.mode(), Mode::SensingInput);

    let mut transfer = bus.make_input();
    assert_eq!(run(&mut transfer, 0, None), vec![]);
    assert_eq!(bus.done(transfer), Ok(()));
    assert_eq!(bus.mode(), Mode::SensingInput);

    let mut transfer = bus.make_output();
    assert_eq!(run(&mut transfer, 0, None), vec![LineSignal::Emit]);
    assert_eq!(bus.done(transfer), Ok(()));
    assert_eq!(bus.mode(), Mode::DrivingOutput);

    let mut transfer = bus.make_output();
    assert_eq!(run(&mut transfer, 0, None), vec![]);
    assert_eq!(bus.done(transfer), Ok(()));
    assert_eq!(bus.mode(), Mode::DrivingOutput);
}

#[test]
fn failed_switch_leaves_the_direction_unknown() {
    let mut bus = Bus::new();
    let mut transfer = bus.write(1);
    run(&mut transfer, 0, None);
    assert_eq!(bus.done(transfer), Ok(()));

    let mut transfer = bus.read();
    assert_eq!(run(&mut transfer, 0xff, Some(0)), vec![LineSignal::Listen]);
    assert_eq!(bus.sensed(transfer), Err(0));
    assert_eq!(bus.mode(), Mode::Uninitialized);

    // the next write sets the lines up again
    let mut transfer = bus.write(1);
    assert_eq!(run(&mut transfer, 0, None)[0], LineSignal::Emit);
}

#[test]
fn failed_line_stops_the_write() {
    let mut bus = Bus::new();
    let mut transfer = bus.write(0xff);
    let sent = run(&mut transfer, 0, Some(4));
    assert_eq!(sent.len(), 5);
    assert_eq!(sent[4], LineSignal::Drive { line: 3, high: true });
    assert_eq!(bus.done(transfer), Err(4));
    // the lines were set up before the failure
    assert_eq!(bus.mode(), Mode::DrivingOutput);
}

#[test]
fn failed_sample_stops_the_read() {
    let mut bus = Bus::new();
    let mut transfer = bus.read();
    let sent = run(&mut transfer, 0xff, Some(8));
    assert_eq!(sent.len(), 9);
    assert_eq!(bus.sensed(transfer), Err(8));
    assert_eq!(bus.mode(), Mode::SensingInput);
}
