use uefi::guid::Guid;
use uefi::status::{Error, Status, BUFFER_TOO_SMALL, DEVICE_ERROR, INVALID_PARAMETER, NOT_FOUND, SUCCESS};
use uefi::variables::{
    decode_name, EnumerationFault, NameStep, Phase, ReadStep, Variable, VariablesIterator,
};

fn vendor() -> Guid {
    Guid::from_values(0x8be4df61, 0x93ca, 0x11d2, 0xaa0d, [0x00, 0xe0, 0x98, 0x03, 0x2b, 0x8c])
}

#[test]
fn variable_new_keeps_fields() {
    let v = Variable::new(String::from("BootOrder"), vendor());
    assert_eq!(v.name, "BootOrder");
    assert_eq!(v.vendor, vendor());
}

#[test]
fn encoded_name_is_ucs2_with_nul() {
    let v = Variable::new(String::from("Boot\u{e9}\u{20ac}"), vendor());
    assert_eq!(v.encoded_name().unwrap(), vec![0x42, 0x6f, 0x6f, 0x74, 0xe9, 0x20ac, 0]);
    let empty = Variable::new(String::new(), vendor());
    assert_eq!(empty.encoded_name().unwrap(), vec![0]);
    let wide = Variable::new(String::from("a\u{1F600}"), vendor());
    assert_eq!(wide.encoded_name().unwrap_err(), Error::Failed(Status(INVALID_PARAMETER)));
}

/// A firmware variable of `required` bytes: too small below that, else filled.
fn simulated_read(required: usize, data: &mut Vec<u8>) -> (Status, usize) {
    if data.len() < required {
        (Status(BUFFER_TOO_SMALL), required)
    } else {
        for (i, b) in data.iter_mut().take(required).enumerate() {
            *b = i as u8;
        }
        (Status(SUCCESS), required)
    }
}

fn run_read(required: usize, initial: usize) -> (Vec<u8>, usize, ReadStep) {
    let mut data = vec![0u8; initial];
    let mut attempts = 0;
    loop {
        attempts += 1;
        assert!(attempts <= 10);
        let (status, size) = simulated_read(required, &mut data);
        let step = uefi::variables::read_step(&mut data, status, size);
        if step != ReadStep::Retry {
            return (data, attempts, step);
        }
    }
}

#[test]
fn read_loop_resizes_once() {
    let (data, attempts, step) = run_read(200, 64);
    assert_eq!(step, ReadStep::Done(Status(SUCCESS)));
    assert_eq!(attempts, 2);
    assert_eq!(data.len(), 200);
    assert_eq!(data[199], 199);
}

#[test]
fn read_loop_truncates_to_reported_size() {
    let (data, attempts, _) = run_read(5, 64);
    assert_eq!(attempts, 1);
    assert_eq!(data, vec![0, 1, 2, 3, 4]);
    let (data, attempts, _) = run_read(0, 0);
    assert_eq!(attempts, 1);
    assert!(data.is_empty());
}

#[test]
fn read_step_fails_on_other_errors() {
    let mut data = vec![1u8, 2, 3];
    let step = uefi::variables::read_step(&mut data, Status(NOT_FOUND), 0);
    assert_eq!(step, ReadStep::Failed(Error::Failed(Status(NOT_FOUND))));
    assert_eq!(data, vec![1, 2, 3]);
    let step = uefi::variables::read_step(&mut data, Status(BUFFER_TOO_SMALL), 5);
    assert_eq!(step, ReadStep::Retry);
    assert_eq!(data, vec![1, 2, 3, 0, 0]);
}

fn ucs2(s: &str) -> Vec<u16> {
    let mut v: Vec<u16> = s.encode_utf16().collect();
    v.push(0);
    v
}

/// Enumerates against a firmware holding `names`, which ends with `last`.
fn enumerate(names: &[&str], last: usize) -> (Vec<String>, NameStep) {
    let mut it = VariablesIterator::new();
    let mut next = 0;
    let mut out = Vec::new();
    loop {
        let mut buffer = it.name_buffer();
        let (status, reported) = if next < names.len() {
            let units = ucs2(names[next]);
            if buffer.len() < units.len() {
                (Status(BUFFER_TOO_SMALL), units.len())
            } else {
                buffer[..units.len()].copy_from_slice(&units);
                next += 1;
                (Status(SUCCESS), units.len())
            }
        } else {
            (Status(last), 0)
        };
        match it.on_reply(status, reported, buffer, vendor()) {
            NameStep::Call => {}
            NameStep::Yield(v) => {
                assert_eq!(v.vendor, vendor());
                out.push(v.name);
            }
            end => return (out, end),
        }
    }
}

#[test]
fn enumeration_yields_every_name_then_ends() {
    let names = ["Boot0000", "BootOrder", "Lang"];
    let (out, end) = enumerate(&names, NOT_FOUND);
    assert_eq!(out, vec!["Boot0000", "BootOrder", "Lang"]);
    assert!(matches!(end, NameStep::End));
    let (out, end) = enumerate(&[], NOT_FOUND);
    assert!(out.is_empty());
    assert!(matches!(end, NameStep::End));
}

#[test]
fn enumeration_resizes_for_long_names() {
    let long = "A".repeat(100);
    let names = ["short", long.as_str(), "x"];
    let (out, end) = enumerate(&names, NOT_FOUND);
    assert_eq!(out.len(), 3);
    assert_eq!(out[1], long);
    assert!(matches!(end, NameStep::End));
}

#[test]
fn enumeration_faults_on_other_errors() {
    let (out, end) = enumerate(&["One", "Two"], DEVICE_ERROR);
    assert_eq!(out, vec!["One", "Two"]);
    assert!(matches!(end, NameStep::Fault(EnumerationFault::Firmware(Status(DEVICE_ERROR)))));
}

#[test]
fn enumeration_retries_every_buffer_too_small() {
    let mut it = VariablesIterator::new();
    let b = it.name_buffer();
    assert_eq!(b.len(), 32);
    assert!(matches!(it.on_reply(Status(BUFFER_TOO_SMALL), 64, b, vendor()), NameStep::Call));
    assert_eq!(it.phase(), Phase::Resized);
    let b = it.name_buffer();
    assert_eq!(b.len(), 64);
    assert!(matches!(it.on_reply(Status(BUFFER_TOO_SMALL), 128, b, vendor()), NameStep::Call));
    let b = it.name_buffer();
    assert_eq!(b.len(), 128);
    assert!(matches!(it.on_reply(Status(BUFFER_TOO_SMALL), 300, b, vendor()), NameStep::Call));
    let mut b = it.name_buffer();
    assert_eq!(b.len(), 300);
    b[0] = 0x58;
    b[1] = 0;
    match it.on_reply(Status(SUCCESS), 2, b, vendor()) {
        NameStep::Yield(v) => assert_eq!(v.name, "X"),
        other => panic!("expected a name, got {:?}", other),
    }
    assert_eq!(it.phase(), Phase::Ready);
}

#[test]
fn enumeration_ends_on_not_found_after_resize() {
    let mut it = VariablesIterator::new();
    let b = it.name_buffer();
    assert!(matches!(it.on_reply(Status(BUFFER_TOO_SMALL), 40, b, vendor()), NameStep::Call));
    let b = it.name_buffer();
    assert!(matches!(it.on_reply(Status(NOT_FOUND), 0, b, vendor()), NameStep::End));
    assert_eq!(it.phase(), Phase::Finished);
    let b = it.name_buffer();
    assert!(matches!(it.on_reply(Status(SUCCESS), 0, b, vendor()), NameStep::End));
}

#[test]
fn read_loop_follows_growing_sizes() {
    let needs = [100usize, 250, 600, 600];
    let mut data = vec![0u8; 64];
    let mut calls = 0;
    let mut lens = Vec::new();
    loop {
        let need = needs[calls];
        calls += 1;
        lens.push(data.len());
        let status = if data.len() < need { Status(BUFFER_TOO_SMALL) } else { Status(SUCCESS) };
        match uefi::variables::read_step(&mut data, status, need) {
            ReadStep::Retry => {}
            other => {
                assert_eq!(other, ReadStep::Done(Status(SUCCESS)));
                break;
            }
        }
    }
    assert_eq!(calls, 4);
    assert_eq!(lens, vec![64, 100, 250, 600]);
    assert_eq!(data.len(), 600);
}

#[test]
fn enumeration_faults_on_invalid_name() {
    let mut it = VariablesIterator::new();
    let mut b = it.name_buffer();
    b[0] = 0xd800;
    let step = it.on_reply(Status(SUCCESS), 2, b, vendor());
    assert!(matches!(step, NameStep::Fault(EnumerationFault::InvalidName)));
}

#[test]
fn decode_name_stops_at_nul() {
    assert_eq!(decode_name(&vec![0x48, 0x69, 0, 0x41]), Some(String::from("Hi")));
    assert_eq!(decode_name(&vec![0xe9, 0x20ac, 0x7ff, 0x800]), Some(String::from("\u{e9}\u{20ac}\u{7ff}\u{800}")));
    assert_eq!(decode_name(&vec![]), Some(String::new()));
    assert_eq!(decode_name(&vec![0x41, 0xdc00, 0]), None);
}
