use libcryptsetup_rs::err::{errno, LibcryptErr};
use libcryptsetup_rs::format::{
    CryptParamsIntegrity, CryptParamsJournal, CryptParamsVerity, RawIntegrityParams,
    RawVerityParams,
};
use libcryptsetup_rs::status::{
    integrity_from_engine, status_from_code, verity_from_engine, CryptDeviceStatus, CryptHandle,
    CryptStatusInfo,
};
use libcryptsetup_rs::text::{decode_text, engine_optional_text, engine_text, engine_uuid};

struct FakeDevice {
    status: i32,
    dump: i32,
    cipher: Option<Vec<u8>>,
    cipher_mode: Option<Vec<u8>>,
    uuid: Option<Vec<u8>>,
    device_name: Option<Vec<u8>>,
    metadata_device_name: Option<Vec<u8>>,
    verity_rc: i32,
    fill_verity: fn(&mut RawVerityParams),
    integrity_rc: i32,
    fill_integrity: fn(&mut RawIntegrityParams),
}

fn no_verity(_: &mut RawVerityParams) {}

fn no_integrity(_: &mut RawIntegrityParams) {}

fn fake() -> FakeDevice {
    FakeDevice {
        status: 1,
        dump: 0,
        cipher: Some(b"aes".to_vec()),
        cipher_mode: Some(b"xts-plain64".to_vec()),
        uuid: Some(b"67e55044-10b1-426f-9247-bb680e5fe0c8".to_vec()),
        device_name: Some(b"/dev/sdb1".to_vec()),
        metadata_device_name: None,
        verity_rc: 0,
        fill_verity: no_verity,
        integrity_rc: 0,
        fill_integrity: no_integrity,
    }
}

impl CryptHandle for FakeDevice {
    fn crypt_status(&mut self, name: &str) -> i32 {
        assert_eq!(name, "mydev");
        self.status
    }
    fn crypt_dump(&mut self) -> i32 {
        self.dump
    }
    fn crypt_get_cipher(&mut self) -> Option<Vec<u8>> {
        self.cipher.clone()
    }
    fn crypt_get_cipher_mode(&mut self) -> Option<Vec<u8>> {
        self.cipher_mode.clone()
    }
    fn crypt_get_uuid(&mut self) -> Option<Vec<u8>> {
        self.uuid.clone()
    }
    fn crypt_get_device_name(&mut self) -> Option<Vec<u8>> {
        self.device_name.clone()
    }
    fn crypt_get_metadata_device_name(&mut self) -> Option<Vec<u8>> {
        self.metadata_device_name.clone()
    }
    fn crypt_get_data_offset(&mut self) -> u64 {
        4096
    }
    fn crypt_get_iv_offset(&mut self) -> u64 {
        0
    }
    fn crypt_get_volume_key_size(&mut self) -> i32 {
        64
    }
    fn crypt_get_sector_size(&mut self) -> i32 {
        512
    }
    fn crypt_get_verity_info(&mut self, params: &mut RawVerityParams) -> i32 {
        (self.fill_verity)(params);
        self.verity_rc
    }
    fn crypt_get_integrity_info(&mut self, params: &mut RawIntegrityParams) -> i32 {
        (self.fill_integrity)(params);
        self.integrity_rc
    }
}

fn verity_record() -> RawVerityParams {
    RawVerityParams {
        hash_name: Some(b"sha256".to_vec()),
        data_device: Some(b"/dev/sdc".to_vec()),
        hash_device: Some(b"/dev/sdd".to_vec()),
        fec_device: None,
        salt: Some(vec![1, 2, 3, 4]),
        salt_size: 4,
        hash_type: 1,
        data_block_size: 4096,
        hash_block_size: 4096,
        data_size: 256,
        hash_area_offset: 0,
        fec_area_offset: 0,
        fec_roots: 2,
        flags: 0,
    }
}

fn integrity_record() -> RawIntegrityParams {
    RawIntegrityParams {
        journal_size: 8 << 20,
        journal_watermark: 50,
        journal_commit_time: 10000,
        interleave_sectors: 32768,
        tag_size: 4,
        sector_size: 512,
        buffer_sectors: 128,
        integrity: Some(b"crc32c".to_vec()),
        integrity_key_size: 0,
        journal_integrity: None,
        journal_integrity_key: None,
        journal_integrity_key_size: 0,
        journal_crypt: None,
        journal_crypt_key: None,
        journal_crypt_key_size: 0,
    }
}

#[test]
fn status_known_codes_parse() {
    assert_eq!(CryptStatusInfo::try_from(0), Ok(CryptStatusInfo::Invalid));
    assert_eq!(CryptStatusInfo::try_from(1), Ok(CryptStatusInfo::Inactive));
    assert_eq!(CryptStatusInfo::try_from(2), Ok(CryptStatusInfo::Active));
    assert_eq!(CryptStatusInfo::try_from(3), Ok(CryptStatusInfo::Busy));
}

#[test]
fn status_unknown_codes_are_invalid_conversion() {
    for v in [4u32, 5, 100, u32::MAX] {
        assert_eq!(CryptStatusInfo::try_from(v), Err(LibcryptErr::InvalidConversion));
    }
    assert_eq!(status_from_code(4), Err(LibcryptErr::InvalidConversion));
    assert_eq!(status_from_code(i32::MAX), Err(LibcryptErr::InvalidConversion));
}

#[test]
fn errno_negatives_carry_magnitude() {
    assert_eq!(errno(0), Ok(()));
    assert_eq!(errno(7), Ok(()));
    assert_eq!(errno(-1), Err(LibcryptErr::SystemError(1)));
    assert_eq!(errno(-22), Err(LibcryptErr::SystemError(22)));
    assert_eq!(errno(i32::MIN), Err(LibcryptErr::SystemError(2147483648)));
    assert_eq!(status_from_code(-5), Err(LibcryptErr::SystemError(5)));
}

#[test]
fn status_active_device() {
    let mut dev = fake();
    dev.status = 2;
    let mut st = CryptDeviceStatus::new(&mut dev);
    assert_eq!(st.status("mydev"), Ok(CryptStatusInfo::Active));
}

#[test]
fn status_missing_device_is_system_error() {
    let mut dev = fake();
    dev.status = -2;
    let mut st = CryptDeviceStatus::new(&mut dev);
    assert_eq!(st.status("mydev"), Err(LibcryptErr::SystemError(2)));
}

#[test]
fn dump_reports_errno() {
    let mut dev = fake();
    assert_eq!(CryptDeviceStatus::new(&mut dev).dump(), Ok(()));
    dev.dump = -12;
    assert_eq!(CryptDeviceStatus::new(&mut dev).dump(), Err(LibcryptErr::SystemError(12)));
}

#[test]
fn uuid_text_that_is_no_uuid() {
    let mut dev = fake();
    dev.uuid = Some(b"not-a-uuid".to_vec());
    let mut st = CryptDeviceStatus::new(&mut dev);
    assert_eq!(st.get_uuid().err(), Some(LibcryptErr::UuidError));
}

#[test]
fn uuid_parses() {
    let mut dev = fake();
    let mut st = CryptDeviceStatus::new(&mut dev);
    let expected = uuid::Uuid::parse_str("67e55044-10b1-426f-9247-bb680e5fe0c8").unwrap();
    assert_eq!(st.get_uuid().ok(), Some(expected));
    assert_eq!(engine_uuid(&None).err(), Some(LibcryptErr::SystemError(22)));
    let bad_len = Some(b"67e55044-10b1-426f-9247-bb680e5fe0c".to_vec());
    assert_eq!(engine_uuid(&bad_len).err(), Some(LibcryptErr::UuidError));
}

#[test]
fn cipher_and_mode() {
    let mut dev = fake();
    let mut st = CryptDeviceStatus::new(&mut dev);
    let pair = (st.get_cipher().unwrap(), st.get_cipher_mode().unwrap());
    assert_eq!(pair, ("aes".to_string(), "xts-plain64".to_string()));
}

#[test]
fn null_cipher_is_system_error() {
    let mut dev = fake();
    dev.cipher = None;
    dev.cipher_mode = Some(vec![0xff, 0xfe]);
    let mut st = CryptDeviceStatus::new(&mut dev);
    assert_eq!(st.get_cipher(), Err(LibcryptErr::SystemError(22)));
    assert_eq!(st.get_cipher_mode(), Err(LibcryptErr::SystemError(22)));
}

#[test]
fn device_path_and_geometry() {
    let mut dev = fake();
    let mut st = CryptDeviceStatus::new(&mut dev);
    assert_eq!(st.get_device_path(), Ok("/dev/sdb1".to_string()));
    assert_eq!(st.get_data_offset(), 4096);
    assert_eq!(st.get_iv_offset(), 0);
    assert_eq!(st.get_volume_key_size(), 64);
    assert_eq!(st.get_sector_size(), 512);
}

#[test]
fn metadata_device_path_null_is_none() {
    let mut dev = fake();
    assert_eq!(CryptDeviceStatus::new(&mut dev).get_metadata_device_path(), Ok(None));
    dev.metadata_device_name = Some(b"/dev/meta".to_vec());
    assert_eq!(
        CryptDeviceStatus::new(&mut dev).get_metadata_device_path(),
        Ok(Some("/dev/meta".to_string()))
    );
    assert_eq!(engine_optional_text(&Some(vec![0xc3])), Err(LibcryptErr::SystemError(22)));
}

#[test]
fn text_decoding() {
    assert_eq!(decode_text(&"héllo".as_bytes().to_vec()), Some("héllo".to_string()));
    assert_eq!(decode_text(&vec![0x80]), None);
    assert_eq!(engine_text(&Some(Vec::new())), Ok(String::new()));
}

fn verity_salt_empty_pointer(p: &mut RawVerityParams) {
    *p = verity_record();
    p.salt = Some(Vec::new());
    p.salt_size = 0;
}

#[test]
fn verity_zero_salt_with_pointer_is_empty() {
    let mut dev = fake();
    dev.fill_verity = verity_salt_empty_pointer;
    let v = CryptDeviceStatus::new(&mut dev).get_verity_info().ok().unwrap();
    assert!(v.salt.is_empty());
    assert_eq!(v.hash_name, "sha256");
}

#[test]
fn verity_null_salt_with_size_is_decode_error() {
    let mut raw = verity_record();
    raw.salt = None;
    raw.salt_size = 32;
    assert_eq!(CryptParamsVerity::try_from(&raw).err(), Some(LibcryptErr::DecodeError));
}

#[test]
fn verity_salt_length_mismatch_is_decode_error() {
    let mut raw = verity_record();
    raw.salt_size = 5;
    assert_eq!(CryptParamsVerity::try_from(&raw).err(), Some(LibcryptErr::DecodeError));
}

#[test]
fn verity_decodes_fields() {
    let mut raw = verity_record();
    raw.fec_device = Some(b"/dev/fec".to_vec());
    let v = CryptParamsVerity::try_from(&raw).ok().unwrap();
    assert_eq!(v.data_device, "/dev/sdc");
    assert_eq!(v.hash_device, "/dev/sdd");
    assert_eq!(v.fec_device, Some("/dev/fec".to_string()));
    assert_eq!(v.salt, vec![1, 2, 3, 4]);
    assert_eq!((v.data_block_size, v.data_size, v.fec_roots), (4096, 256, 2));
    raw.hash_name = None;
    assert_eq!(CryptParamsVerity::try_from(&raw).err(), Some(LibcryptErr::DecodeError));
}

#[test]
fn verity_engine_error_comes_first() {
    let raw = verity_record();
    assert_eq!(verity_from_engine(-22, &raw).err(), Some(LibcryptErr::SystemError(22)));
    let mut dev = fake();
    dev.verity_rc = -22;
    assert_eq!(
        CryptDeviceStatus::new(&mut dev).get_verity_info().err(),
        Some(LibcryptErr::SystemError(22))
    );
}

#[test]
fn integrity_without_journal_round_trip() {
    let p = CryptParamsIntegrity::try_from(&integrity_record()).ok().unwrap();
    assert!(p.journal.is_none());
    assert_eq!(p.integrity, Some("crc32c".to_string()));
    let again = CryptParamsIntegrity::try_from(&p.to_raw()).ok().unwrap();
    assert!(again.journal.is_none());
    assert_eq!(again.integrity, Some("crc32c".to_string()));
    assert_eq!((again.journal_size, again.tag_size, again.buffer_sectors), (8 << 20, 4, 128));
}

#[test]
fn integrity_with_journal_round_trip() {
    let p = CryptParamsIntegrity {
        journal_size: 1,
        journal_watermark: 2,
        journal_commit_time: 3,
        interleave_sectors: 4,
        tag_size: 5,
        sector_size: 4096,
        buffer_sectors: 7,
        integrity: None,
        integrity_key_size: 32,
        journal: Some(CryptParamsJournal {
            journal_integrity: Some("hmac(sha256)".to_string()),
            journal_integrity_key: vec![9; 32],
            journal_crypt: None,
            journal_crypt_key: Vec::new(),
        }),
    };
    let raw = p.to_raw();
    assert_eq!(raw.journal_integrity_key_size, 32);
    let q = integrity_from_engine(0, &raw).ok().unwrap();
    let j = q.journal.unwrap();
    assert_eq!(j.journal_integrity, Some("hmac(sha256)".to_string()));
    assert_eq!(j.journal_integrity_key, vec![9; 32]);
    assert_eq!(j.journal_crypt, None);
    assert!(j.journal_crypt_key.is_empty());
    assert_eq!((q.sector_size, q.integrity_key_size), (4096, 32));
}

#[test]
fn integrity_bad_journal_key_is_decode_error() {
    let mut raw = integrity_record();
    raw.journal_crypt = Some(b"aes".to_vec());
    raw.journal_crypt_key_size = 16;
    assert_eq!(CryptParamsIntegrity::try_from(&raw).err(), Some(LibcryptErr::DecodeError));
    raw.integrity = Some(vec![0xff]);
    raw.journal_crypt = None;
    assert_eq!(CryptParamsIntegrity::try_from(&raw).err(), Some(LibcryptErr::DecodeError));
}

fn integrity_fill(p: &mut RawIntegrityParams) {
    *p = integrity_record();
}

#[test]
fn integrity_query_through_device() {
    let mut dev = fake();
    dev.fill_integrity = integrity_fill;
    let p = CryptDeviceStatus::new(&mut dev).get_integrity_info().ok().unwrap();
    assert_eq!(p.journal_watermark, 50);
    dev.integrity_rc = -95;
    assert_eq!(
        CryptDeviceStatus::new(&mut dev).get_integrity_info().err(),
        Some(LibcryptErr::SystemError(95))
    );
}

#[test]
fn integrity_null_journal_key_with_size_is_decode_error() {
    let mut raw = integrity_record();
    raw.journal_integrity_key_size = 32;
    assert_eq!(CryptParamsIntegrity::try_from(&raw).err(), Some(LibcryptErr::DecodeError));
    let mut raw = integrity_record();
    raw.journal_crypt_key_size = 16;
    assert_eq!(CryptParamsIntegrity::try_from(&raw).err(), Some(LibcryptErr::DecodeError));
    let mut raw = integrity_record();
    raw.journal_crypt_key = Some(vec![1, 2]);
    raw.journal_crypt_key_size = 3;
    assert_eq!(integrity_from_engine(0, &raw).err(), Some(LibcryptErr::DecodeError));
}
