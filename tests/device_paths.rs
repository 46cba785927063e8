use uefi::boot_manager::{BootManagerPolicy, ConnectArgs};
use uefi::device_path::{
    scan_path, DevicePath, DevicePathUtilities, END_ENTIRE, END_INSTANCE, MEDIA_FILE_PATH,
    TYPE_END_OF_HARDWARE, TYPE_HARDWARE, TYPE_MEDIA,
};
use uefi::dxe::DXEServices;
use uefi::guid::Guid;
use uefi::loaded_image::{load_options_text, LoadOptionsError};
use uefi::status::{Error, Status, NOT_FOUND, SUCCESS, WARN_RESET_REQUIRED};
use uefi::table::{Header, TableError, DXE_SERVICES_SIGNATURE, RUNTIME_SERVICES_SIGNATURE};

fn node(t: u8, s: u8, payload: &[u8]) -> Vec<u8> {
    let len = (payload.len() + 4) as u16;
    let mut v = vec![t, s, (len & 0xff) as u8, (len >> 8) as u8];
    v.extend_from_slice(payload);
    v
}

#[test]
fn is_end_only_for_end_entire() {
    let end = DevicePath { path_type: TYPE_END_OF_HARDWARE, sub_type: END_ENTIRE, length: 4 };
    let inst = DevicePath { path_type: TYPE_END_OF_HARDWARE, sub_type: END_INSTANCE, length: 4 };
    let hw = DevicePath { path_type: TYPE_HARDWARE, sub_type: END_ENTIRE, length: 4 };
    assert!(end.is_end());
    assert!(!inst.is_end());
    assert!(!hw.is_end());
}

#[test]
fn traversal_reaches_end_in_n_minus_one_steps() {
    let mut bytes = node(TYPE_HARDWARE, 1, &[1, 2, 3, 4, 5, 6]);
    bytes.extend(node(TYPE_MEDIA, MEDIA_FILE_PATH, &[0x41, 0, 0, 0]));
    bytes.extend(node(TYPE_END_OF_HARDWARE, END_INSTANCE, &[]));
    bytes.extend(node(TYPE_END_OF_HARDWARE, END_ENTIRE, &[]));
    assert_eq!(scan_path(&bytes), Some((3, 26)));
    let mut offset = 0;
    let mut seen = Vec::new();
    loop {
        let n = DevicePath::read(&bytes, offset).unwrap();
        seen.push(n.is_end());
        if n.is_end() {
            break;
        }
        offset = n.next_node(offset, bytes.len()).unwrap();
    }
    assert_eq!(seen, vec![false, false, false, true]);
    assert_eq!(offset, 22);
}

#[test]
fn traversal_of_end_node_alone() {
    let bytes = node(TYPE_END_OF_HARDWARE, END_ENTIRE, &[]);
    assert_eq!(scan_path(&bytes), Some((0, 4)));
}

#[test]
fn traversal_rejects_broken_chains() {
    let mut cut = node(TYPE_HARDWARE, 1, &[1, 2]);
    cut.extend(node(TYPE_END_OF_HARDWARE, END_ENTIRE, &[]));
    cut.pop();
    assert_eq!(scan_path(&cut), None);
    let short = vec![TYPE_HARDWARE, 1, 2, 0, TYPE_END_OF_HARDWARE, END_ENTIRE, 4, 0];
    assert_eq!(scan_path(&short), None);
    let no_end = node(TYPE_HARDWARE, 1, &[9]);
    assert_eq!(scan_path(&no_end), None);
    assert_eq!(scan_path(&[]), None);
}

#[test]
fn header_reads_little_endian_length() {
    let bytes = [0u8, 0x04, 0x01, 0x2a, 0x01];
    let h = DevicePath::read(&bytes, 1).unwrap();
    assert_eq!(h, DevicePath { path_type: 4, sub_type: 1, length: 0x12a });
    assert_eq!(DevicePath::read(&bytes, 2), None);
    assert_eq!(DevicePath::read(&bytes, 9), None);
    assert_eq!(h.next_node(1, 0x12b), Some(0x12b));
    assert_eq!(h.next_node(1, 0x12a), None);
    let tiny = DevicePath { path_type: 1, sub_type: 1, length: 3 };
    assert_eq!(tiny.next_node(0, 100), None);
}

#[test]
fn connect_calls_pass_the_right_arguments() {
    let policy = BootManagerPolicy::new(0x10000);
    assert_eq!(policy.revision(), 0x10000);
    let dp = DevicePath { path_type: TYPE_HARDWARE, sub_type: 1, length: 4 };
    let r = policy.connect_device_path(&dp, true, |a: ConnectArgs| {
        assert_eq!(a, ConnectArgs { device_path: Some(dp), recursive: true });
        Status(SUCCESS)
    });
    assert!(r.is_ok());
    let r = policy.connect_all_controllers(|a: ConnectArgs| {
        assert_eq!(a, ConnectArgs { device_path: None, recursive: false });
        Status(NOT_FOUND)
    });
    assert_eq!(r.unwrap_err(), Error::Failed(Status(NOT_FOUND)));
    let class = BootManagerPolicy::guid();
    let r = policy.connect_device_class(&class, |g: Guid| {
        assert_eq!(g, class);
        Status(WARN_RESET_REQUIRED)
    });
    assert_eq!(r.unwrap().status(), Status(WARN_RESET_REQUIRED));
    assert_eq!(BootManagerPolicy::guid().to_string(), "fedf8e0c-e147-11e3-9903-b8e8562cbafa");
}

#[test]
fn dxe_dispatch_and_header() {
    let h = Header { signature: DXE_SERVICES_SIGNATURE, revision: 1, size: 200, crc: 0, reserved: 0 };
    assert_eq!(h.validate(DXE_SERVICES_SIGNATURE, 200), Ok(()));
    assert_eq!(h.validate(DXE_SERVICES_SIGNATURE, 201), Err(TableError::TooSmall));
    assert_eq!(h.validate(RUNTIME_SERVICES_SIGNATURE, 8), Err(TableError::WrongSignature));
    let dxe = DXEServices::new(h);
    assert_eq!(dxe.header(), h);
    assert!(dxe.dispatch(|| Status(SUCCESS)).is_ok());
    assert_eq!(dxe.dispatch(|| Status(NOT_FOUND)).unwrap_err(), Error::Failed(Status(NOT_FOUND)));
    assert_eq!(DXEServices::guid().to_string(), "05ad34ba-6f02-4214-952e-4da0398e2bb9");
}

#[test]
fn utilities_forward_to_firmware() {
    let u = DevicePathUtilities {};
    let dp = DevicePath { path_type: TYPE_END_OF_HARDWARE, sub_type: END_ENTIRE, length: 4 };
    assert_eq!(u.get_device_path_size(&dp, |d: DevicePath| d.length as usize), 4);
    assert!(!u.is_device_path_multi_instance(&dp, |d: DevicePath| !d.is_end()));
    assert_eq!(DevicePathUtilities::guid().to_string(), "0379be4e-d706-437d-b037-edb82fb772a4");
}

#[test]
fn load_options_decode() {
    let units: Vec<u16> = "fs0:\\boot.efi -v \u{e9}".encode_utf16().collect();
    let mut buffer = vec![0xaau8; 64];
    let start = buffer.as_ptr();
    let text = load_options_text(&units, &mut buffer).unwrap();
    assert_eq!(text, "fs0:\\boot.efi -v \u{e9}");
    assert_eq!(text.as_ptr(), start);
    let n = text.len();
    assert_eq!(n, 19);
    assert_eq!(&buffer[..3], b"fs0");
    assert!(buffer[n..].iter().all(|&b| b == 0xaa));
    let mut small = vec![0u8; 5];
    assert_eq!(load_options_text(&units, &mut small), Err(LoadOptionsError::BufferTooSmall));
    let mut exact = vec![0u8; 2];
    assert_eq!(load_options_text(&[0xe9], &mut exact).unwrap(), "\u{e9}");
    let mut one = vec![0u8; 1];
    assert_eq!(load_options_text(&[0xe9], &mut one), Err(LoadOptionsError::BufferTooSmall));
    let mut buf = vec![0u8; 8];
    assert_eq!(load_options_text(&[0x41, 0xd800], &mut buf), Err(LoadOptionsError::NotValidUtf8));
    let mut none: Vec<u8> = Vec::new();
    assert_eq!(load_options_text(&[], &mut none).unwrap(), "");
}

#[test]
fn instances_are_counted() {
    let mut bytes = node(TYPE_HARDWARE, 1, &[1, 2]);
    bytes.extend(node(TYPE_END_OF_HARDWARE, END_INSTANCE, &[]));
    bytes.extend(node(TYPE_MEDIA, MEDIA_FILE_PATH, &[0x41, 0]));
    bytes.extend(node(TYPE_END_OF_HARDWARE, END_INSTANCE, &[]));
    bytes.extend(node(TYPE_HARDWARE, 2, &[]));
    bytes.extend(node(TYPE_END_OF_HARDWARE, END_ENTIRE, &[]));
    assert_eq!(uefi::device_path::count_instances(&bytes), Some(3));
    let single = node(TYPE_END_OF_HARDWARE, END_ENTIRE, &[]);
    assert_eq!(uefi::device_path::count_instances(&single), Some(1));
    assert_eq!(uefi::device_path::count_instances(&bytes[..bytes.len() - 1]), None);
    let inst = DevicePath { path_type: TYPE_END_OF_HARDWARE, sub_type: END_INSTANCE, length: 4 };
    assert!(inst.is_instance_end());
    assert!(!inst.is_end());
}
