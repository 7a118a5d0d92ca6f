use osdp_file::{
    registration_outcome, status_outcome, FileError, MemFile, OsdpFile, CALLBACK_FAILURE,
};

const FW_PATH: &str = "/tmp/fw.bin";

fn firmware() -> Vec<u8> {
    (0..1024u32).map(|i| (i * 7 % 251) as u8).collect()
}

fn opener(bytes: Vec<u8>) -> impl FnOnce(&String) -> Option<MemFile> {
    move |p: &String| {
        if p.as_str() == FW_PATH {
            Some(MemFile::new(bytes))
        } else {
            None
        }
    }
}

fn no_file(_: &String) -> Option<MemFile> {
    None
}

fn must_not_open(_: &String) -> Option<MemFile> {
    panic!("the file must not be opened")
}

fn context() -> OsdpFile<MemFile> {
    OsdpFile::new(7, String::from(FW_PATH))
}

#[test]
fn new_context_is_inactive() {
    let f = context();
    assert_eq!(f.id(), 7);
    assert_eq!(f.path().as_str(), FW_PATH);
    assert!(!f.is_open());
    assert_eq!(f.size(), 0);
}

#[test]
fn second_open_is_already_open() {
    let mut f = context();
    assert_eq!(f.open(7, opener(firmware())), Ok(1024));
    assert_eq!(f.open(7, must_not_open), Err(FileError::AlreadyOpen));
    assert_eq!(f.open(8, must_not_open), Err(FileError::AlreadyOpen));
    assert_eq!(f.size(), 1024);
    assert!(f.is_open());
    assert_eq!(f.check_open(7), Err(FileError::AlreadyOpen));
}

#[test]
fn mismatched_id_never_opens() {
    let mut f = context();
    assert_eq!(f.check_open(3), Err(FileError::IdentifierMismatch));
    assert_eq!(f.open(3, must_not_open), Err(FileError::IdentifierMismatch));
    assert!(!f.is_open());
    assert_eq!(f.check_open(7), Ok(()));
    let mut size = -5;
    assert_eq!(f.open_callback(3, must_not_open, &mut size), CALLBACK_FAILURE);
    assert_eq!(size, -5);
}

#[test]
fn write_then_read_returns_written_bytes() {
    let mut f = context();
    assert_eq!(f.open(7, opener(firmware())), Ok(1024));
    let data: Vec<u8> = vec![0xde, 0xad, 0xbe, 0xef, 0x01];
    assert_eq!(f.write(100, &data), Ok(5));
    assert_eq!(f.read(100, 5), Ok(data.clone()));
    // Around the write the file is as it was.
    let fw = firmware();
    assert_eq!(f.read(95, 5), Ok(fw[95..100].to_vec()));
    assert_eq!(f.read(105, 5), Ok(fw[105..110].to_vec()));
    // A write that runs past the end extends the file.
    assert_eq!(f.write(1022, &data), Ok(5));
    assert_eq!(f.read(1022, 5), Ok(data));
}

#[test]
fn write_past_end_fills_gap_with_zeros() {
    let mut f = context();
    assert_eq!(f.open(7, opener(vec![1, 2, 3])), Ok(3));
    assert_eq!(f.write(6, &vec![9, 9]), Ok(2));
    assert_eq!(f.read(0, 100), Ok(vec![1, 2, 3, 0, 0, 0, 9, 9]));
    assert_eq!(f.write(50, &Vec::new()), Ok(0));
    assert_eq!(f.read(0, 100), Ok(vec![1, 2, 3, 0, 0, 0, 9, 9]));
}

#[test]
fn inactive_context_is_not_open() {
    let mut f = context();
    assert_eq!(f.read(0, 10), Err(FileError::NotOpen));
    assert_eq!(f.write(0, &vec![1, 2]), Err(FileError::NotOpen));
    assert_eq!(f.close(), Err(FileError::NotOpen));
    let mut buf = [0x55u8; 8];
    assert_eq!(f.read_callback(&mut buf, 8, 0), CALLBACK_FAILURE);
    assert_eq!(buf, [0x55u8; 8]);
    assert_eq!(f.write_callback(&[1, 2, 3], 3, 0), CALLBACK_FAILURE);
    assert_eq!(f.close_callback(), CALLBACK_FAILURE);
    assert!(!f.is_open());
}

#[test]
fn second_close_is_not_open() {
    let mut f = context();
    assert_eq!(f.open(7, opener(firmware())), Ok(1024));
    assert_eq!(f.close(), Ok(()));
    assert_eq!(f.close(), Err(FileError::NotOpen));
    assert_eq!(f.size(), 1024);
    assert_eq!(f.open(7, opener(firmware())), Ok(1024));
    assert_eq!(f.close_callback(), 0);
    assert_eq!(f.close_callback(), CALLBACK_FAILURE);
}

#[test]
fn firmware_transfer_scenario() {
    let fw = firmware();
    let mut f = context();
    assert_eq!(f.open(7, opener(fw.clone())), Ok(1024));
    let chunk = f.read(512, 256).unwrap();
    assert_eq!(chunk.len(), 256);
    assert_eq!(chunk, fw[512..768].to_vec());
    assert_eq!(f.close(), Ok(()));
    assert_eq!(f.read(0, 10), Err(FileError::NotOpen));
}

#[test]
fn firmware_transfer_through_callbacks() {
    let fw = firmware();
    let mut f = context();
    let mut size = 0;
    assert_eq!(f.open_callback(7, opener(fw.clone()), &mut size), 0);
    assert_eq!(size, 1024);
    let mut buf = [0u8; 256];
    assert_eq!(f.read_callback(&mut buf, 256, 512), 256);
    assert_eq!(buf.to_vec(), fw[512..768].to_vec());
    assert_eq!(f.close_callback(), 0);
    assert_eq!(f.read_callback(&mut buf, 10, 0), CALLBACK_FAILURE);
}

#[test]
fn missing_file_scenario() {
    let mut f = context();
    assert_eq!(f.open(7, no_file), Err(FileError::OpenFailed));
    assert!(!f.is_open());
    assert_eq!(f.close(), Err(FileError::NotOpen));
    let mut g: OsdpFile<MemFile> = OsdpFile::new(7, String::from("/tmp/missing.bin"));
    assert_eq!(g.open(7, opener(firmware())), Err(FileError::OpenFailed));
    assert!(!g.is_open());
    // The failure leaves the context ready to try again.
    let mut size = 0;
    assert_eq!(f.open_callback(7, no_file, &mut size), CALLBACK_FAILURE);
    assert_eq!(f.open(7, opener(firmware())), Ok(1024));
}

#[test]
fn write_at_offset_beyond_range_overflows() {
    let fw = firmware();
    let mut f = context();
    assert_eq!(f.open(7, opener(fw.clone())), Ok(1024));
    assert_eq!(f.write(1u64 << 31, &vec![1, 2, 3]), Err(FileError::OffsetOverflow));
    assert_eq!(f.write((1u64 << 31) - 2, &vec![1, 2, 3]), Err(FileError::OffsetOverflow));
    assert_eq!(f.read(1u64 << 31, 1), Err(FileError::OffsetOverflow));
    assert_eq!(f.read(0, 1024), Ok(fw));
    assert!(f.is_open());
    let mut buf = [0u8; 4];
    assert_eq!(f.read_callback(&mut buf, 4, i32::MAX), CALLBACK_FAILURE);
    assert_eq!(f.write_callback(&[1, 2, 3, 4], 4, i32::MAX - 1), CALLBACK_FAILURE);
}

#[test]
fn offset_at_range_end_is_accepted() {
    let mut f = context();
    assert_eq!(f.open(7, opener(vec![1, 2, 3])), Ok(3));
    assert_eq!(f.read((1u64 << 31) - 1, 0), Ok(Vec::new()));
    assert_eq!(f.read((1u64 << 31) - 2, 1), Ok(Vec::new()));
}

#[test]
fn short_read_at_end_of_file() {
    let fw = firmware();
    let mut f = context();
    assert_eq!(f.open(7, opener(fw.clone())), Ok(1024));
    assert_eq!(f.read(1000, 100), Ok(fw[1000..].to_vec()));
    assert_eq!(f.read(1024, 10), Ok(Vec::new()));
    assert_eq!(f.read(5000, 10), Ok(Vec::new()));
    let mut buf = [0xaau8; 8];
    assert_eq!(f.read_callback(&mut buf, 8, 1020), 4);
    assert_eq!(buf[..4].to_vec(), fw[1020..].to_vec());
    assert_eq!(buf[4..], [0xaau8; 4]);
}

#[test]
fn callback_arguments_are_checked() {
    let mut f = context();
    assert_eq!(f.open(7, opener(firmware())), Ok(1024));
    let mut buf = [0x11u8; 4];
    assert_eq!(f.read_callback(&mut buf, 5, 0), CALLBACK_FAILURE);
    assert_eq!(f.read_callback(&mut buf, -1, 0), CALLBACK_FAILURE);
    assert_eq!(f.read_callback(&mut buf, 4, -1), CALLBACK_FAILURE);
    assert_eq!(buf, [0x11u8; 4]);
    assert_eq!(f.write_callback(&[1, 2], 3, 0), CALLBACK_FAILURE);
    assert_eq!(f.write_callback(&[1, 2], -2, 0), CALLBACK_FAILURE);
    assert_eq!(f.write_callback(&[1, 2], 2, -4), CALLBACK_FAILURE);
    assert_eq!(f.write_callback(&[9, 8, 7], 2, 10), 2);
    assert_eq!(f.read(10, 3), Ok(vec![9, 8, firmware()[12]]));
}

#[test]
fn mem_file_keeps_written_bytes() {
    let mut f = context();
    assert_eq!(f.open(7, opener(vec![0; 4])), Ok(4));
    assert_eq!(f.write(1, &vec![5, 6]), Ok(2));
    assert_eq!(f.read(0, 4), Ok(vec![0, 5, 6, 0]));
    let m = MemFile::new(vec![4, 5]);
    assert_eq!(m.as_bytes(), &vec![4, 5]);
}

#[test]
fn registration_outcome_follows_return_code() {
    assert_eq!(registration_outcome(0), Ok(()));
    assert_eq!(registration_outcome(3), Ok(()));
    assert_eq!(registration_outcome(-1), Err(FileError::RegistrationFailed));
}

#[test]
fn status_outcome_follows_return_code() {
    assert_eq!(status_outcome(0, 1024, 512), Ok((1024, 512)));
    assert_eq!(status_outcome(-1, 1024, 512), Err(FileError::StatusQueryFailed));
}

#[test]
fn repeated_read_callback_agrees() {
    let mut f = context();
    assert_eq!(f.open(7, opener(firmware())), Ok(1024));
    let mut a = [0x33u8; 16];
    let mut b = [0x33u8; 16];
    assert_eq!(f.read_callback(&mut a, 16, 1016), 8);
    assert_eq!(f.read_callback(&mut b, 16, 1016), 8);
    assert_eq!(a, b);
    assert_eq!(a[8..], [0x33u8; 8]);
    assert_eq!(f.read_callback(&mut a, 16, 2000), 0);
    assert_eq!(a, b);
}
