use vstd::prelude::*;
use uuid::Uuid;
use crate::err::{errno, errno_spec, LibcryptErr};
use crate::format::{
    decode_integrity_spec, decode_verity_spec, view_result, CryptParamsIntegrity,
    CryptParamsVerity, IntegrityView, RawIntegrityParams, RawVerityParams, VerityView,
};
use crate::text::{
    engine_optional_text, engine_optional_text_spec, engine_text, engine_text_spec, engine_uuid,
    opt_bytes, optional_text_result, text_result, uuid_outcome,
};

verus! {

/// Runtime state of a device.
#[derive(Debug, Clone, Copy, PartialEq, Eq, Structural)]
pub enum CryptStatusInfo {
    Invalid,
    Inactive,
    Active,
    Busy,
}

impl CryptStatusInfo {
    /// The engine's integer for this state.
    pub open spec fn code(self) -> u32 {
        match self {
            CryptStatusInfo::Invalid => 0,
            CryptStatusInfo::Inactive => 1,
            CryptStatusInfo::Active => 2,
            CryptStatusInfo::Busy => 3,
        }
    }

    /// Maps the engine's integer to a state; any other integer is
    /// `InvalidConversion`.
    pub fn try_from(v: u32) -> (r: Result<CryptStatusInfo, LibcryptErr>)
        ensures
            r == status_of_code(v),
            v <= 3 ==> (r matches Ok(s) && s.code() == v),
            v > 3 ==> r == Err::<CryptStatusInfo, LibcryptErr>(LibcryptErr::InvalidConversion),
    {
        match v {
            0 => Ok(CryptStatusInfo::Invalid),
            1 => Ok(CryptStatusInfo::Inactive),
            2 => Ok(CryptStatusInfo::Active),
            3 => Ok(CryptStatusInfo::Busy),
            _ => Err(LibcryptErr::InvalidConversion),
        }
    }
}

/// The state whose integer is `v`, or `InvalidConversion`.
pub open spec fn status_of_code(v: u32) -> Result<CryptStatusInfo, LibcryptErr> {
    if v == 0 {
        Ok(CryptStatusInfo::Invalid)
    } else if v == 1 {
        Ok(CryptStatusInfo::Inactive)
    } else if v == 2 {
        Ok(CryptStatusInfo::Active)
    } else if v == 3 {
        Ok(CryptStatusInfo::Busy)
    } else {
        Err(LibcryptErr::InvalidConversion)
    }
}

/// What the engine's answer to a status query means: a negated OS error
/// number when negative, else the integer of a state.
pub open spec fn status_spec(rc: i32) -> Result<CryptStatusInfo, LibcryptErr> {
    if rc < 0 {
        Err(LibcryptErr::SystemError((-rc) as u32))
    } else {
        status_of_code(rc as u32)
    }
}

/// Translates the engine's answer to a status query.
pub fn status_from_code(rc: i32) -> (r: Result<CryptStatusInfo, LibcryptErr>)
    ensures
        r == status_spec(rc),
{
    if rc < 0 {
        match errno(rc) {
            Err(e) => Err(e),
            Ok(()) => Err(LibcryptErr::InvalidConversion),
        }
    } else {
        CryptStatusInfo::try_from(rc as u32)
    }
}

/// The call surface of an open device context in the cryptsetup engine. A
/// string the engine hands back is `None` when its pointer is null, else the
/// bytes before its terminating zero; a record is filled in place and the
/// integer result follows the engine's convention (negative: negated OS
/// error number).
pub trait CryptHandle {
    fn crypt_status(&mut self, name: &str) -> i32;

    fn crypt_dump(&mut self) -> i32;

    fn crypt_get_cipher(&mut self) -> Option<Vec<u8>>;

    fn crypt_get_cipher_mode(&mut self) -> Option<Vec<u8>>;

    fn crypt_get_uuid(&mut self) -> Option<Vec<u8>>;

    fn crypt_get_device_name(&mut self) -> Option<Vec<u8>>;

    fn crypt_get_metadata_device_name(&mut self) -> Option<Vec<u8>>;

    fn crypt_get_data_offset(&mut self) -> u64;

    fn crypt_get_iv_offset(&mut self) -> u64;

    fn crypt_get_volume_key_size(&mut self) -> i32;

    fn crypt_get_sector_size(&mut self) -> i32;

    fn crypt_get_verity_info(&mut self, params: &mut RawVerityParams) -> i32;

    fn crypt_get_integrity_info(&mut self, params: &mut RawIntegrityParams) -> i32;
}

/// Handle for crypt device status operations
pub struct CryptDeviceStatus<'a, D: CryptHandle> {
    reference: &'a mut D,
}

impl<'a, D: CryptHandle> CryptDeviceStatus<'a, D> {
    /// The device context the queries go to.
    pub closed spec fn device(&self) -> D {
        *self.reference
    }

    pub fn new(reference: &'a mut D) -> (r: Self)
        ensures
            r.device() == *old(reference),
    {
        CryptDeviceStatus { reference }
    }

    /// Get status info from device name
    pub fn status(&mut self, name: &str) -> (r: Result<CryptStatusInfo, LibcryptErr>)
        ensures
            exists|rc: i32| r == #[trigger] status_spec(rc),
    {
        let rc = self.reference.crypt_status(name);
        let r = status_from_code(rc);
        assert(r == status_spec(rc));
        r
    }

    /// Dump text info about device to log output
    pub fn dump(&mut self) -> (r: Result<(), LibcryptErr>)
        ensures
            exists|rc: i32| r == #[trigger] errno_spec(rc),
    {
        let rc = self.reference.crypt_dump();
        let r = errno(rc);
        assert(r == errno_spec(rc));
        r
    }

    /// Get cipher used by device
    pub fn get_cipher(&mut self) -> (r: Result<String, LibcryptErr>)
        ensures
            exists|p: Option<Seq<u8>>| text_result(r) == #[trigger] engine_text_spec(p),
    {
        let p = self.reference.crypt_get_cipher();
        let r = engine_text(&p);
        assert(text_result(r) == engine_text_spec(opt_bytes(p)));
        r
    }

    /// Get cipher mode used by device
    pub fn get_cipher_mode(&mut self) -> (r: Result<String, LibcryptErr>)
        ensures
            exists|p: Option<Seq<u8>>| text_result(r) == #[trigger] engine_text_spec(p),
    {
        let p = self.reference.crypt_get_cipher_mode();
        let r = engine_text(&p);
        assert(text_result(r) == engine_text_spec(opt_bytes(p)));
        r
    }

    /// Get device UUID
    pub fn get_uuid(&mut self) -> (r: Result<Uuid, LibcryptErr>)
        ensures
            exists|p: Option<Seq<u8>>| #[trigger] uuid_outcome(p, r),
    {
        let p = self.reference.crypt_get_uuid();
        let r = engine_uuid(&p);
        assert(uuid_outcome(opt_bytes(p), r));
        r
    }

    /// Get path to underlying device
    pub fn get_device_path(&mut self) -> (r: Result<String, LibcryptErr>)
        ensures
            exists|p: Option<Seq<u8>>| text_result(r) == #[trigger] engine_text_spec(p),
    {
        let p = self.reference.crypt_get_device_name();
        let r = engine_text(&p);
        assert(text_result(r) == engine_text_spec(opt_bytes(p)));
        r
    }

    /// Get path to detached metadata device or `None` if it is attached
    pub fn get_metadata_device_path(&mut self) -> (r: Result<Option<String>, LibcryptErr>)
        ensures
            exists|p: Option<Seq<u8>>| optional_text_result(r) == #[trigger] engine_optional_text_spec(p),
    {
        let p = self.reference.crypt_get_metadata_device_name();
        let r = engine_optional_text(&p);
        assert(optional_text_result(r) == engine_optional_text_spec(opt_bytes(p)));
        r
    }

    /// Get offset in 512-byte sectors where real data starts
    pub fn get_data_offset(&mut self) -> u64 {
        self.reference.crypt_get_data_offset()
    }

    /// Get IV location offset in 512-byte sectors
    pub fn get_iv_offset(&mut self) -> u64 {
        self.reference.crypt_get_iv_offset()
    }

    /// Get size in bytes of volume key
    pub fn get_volume_key_size(&mut self) -> i32 {
        self.reference.crypt_get_volume_key_size()
    }

    /// Get size of encryption sectors in bytes
    pub fn get_sector_size(&mut self) -> i32 {
        self.reference.crypt_get_sector_size()
    }

    /// Get Verity device parameters
    pub fn get_verity_info(&mut self) -> (r: Result<CryptParamsVerity, LibcryptErr>)
        ensures
            exists|rc: i32, raw: RawVerityParams| view_result(r) == #[trigger] verity_outcome(rc, raw),
    {
        let mut raw = RawVerityParams {
            hash_name: None,
            data_device: None,
            hash_device: None,
            fec_device: None,
            salt: None,
            salt_size: 0,
            hash_type: 0,
            data_block_size: 0,
            hash_block_size: 0,
            data_size: 0,
            hash_area_offset: 0,
            fec_area_offset: 0,
            fec_roots: 0,
            flags: 0,
        };
        let rc = self.reference.crypt_get_verity_info(&mut raw);
        let r = verity_from_engine(rc, &raw);
        assert(view_result(r) == verity_outcome(rc, raw));
        r
    }

    /// Get Integrity device parameters
    pub fn get_integrity_info(&mut self) -> (r: Result<CryptParamsIntegrity, LibcryptErr>)
        ensures
            exists|rc: i32, raw: RawIntegrityParams| view_result(r) == #[trigger] integrity_outcome(rc, raw),
    {
        let mut raw = RawIntegrityParams {
            journal_size: 0,
            journal_watermark: 0,
            journal_commit_time: 0,
            interleave_sectors: 0,
            tag_size: 0,
            sector_size: 0,
            buffer_sectors: 0,
            integrity: None,
            integrity_key_size: 0,
            journal_integrity: None,
            journal_integrity_key: None,
            journal_integrity_key_size: 0,
            journal_crypt: None,
            journal_crypt_key: None,
            journal_crypt_key_size: 0,
        };
        let rc = self.reference.crypt_get_integrity_info(&mut raw);
        let r = integrity_from_engine(rc, &raw);
        assert(view_result(r) == integrity_outcome(rc, raw));
        r
    }
}

/// What a verity query yields from the engine's result and the record it
/// filled in: the engine's error when it failed, else the decoded record.
pub open spec fn verity_outcome(rc: i32, raw: RawVerityParams) -> Result<VerityView, LibcryptErr> {
    match errno_spec(rc) {
        Err(e) => Err(e),
        Ok(_) => decode_verity_spec(raw),
    }
}

/// What an integrity query yields, as for [`verity_outcome`].
pub open spec fn integrity_outcome(rc: i32, raw: RawIntegrityParams) -> Result<
    IntegrityView,
    LibcryptErr,
> {
    match errno_spec(rc) {
        Err(e) => Err(e),
        Ok(_) => decode_integrity_spec(raw),
    }
}

/// Translates the engine's answer to a verity query.
pub fn verity_from_engine(rc: i32, raw: &RawVerityParams) -> (r: Result<CryptParamsVerity, LibcryptErr>)
    ensures
        view_result(r) == verity_outcome(rc, *raw),
{
    match errno(rc) {
        Err(e) => Err(e),
        Ok(()) => CryptParamsVerity::try_from(raw),
    }
}

/// Translates the engine's answer to an integrity query.
pub fn integrity_from_engine(rc: i32, raw: &RawIntegrityParams) -> (r: Result<
    CryptParamsIntegrity,
    LibcryptErr,
>)
    ensures
        view_result(r) == integrity_outcome(rc, *raw),
{
    match errno(rc) {
        Err(e) => Err(e),
        Ok(()) => CryptParamsIntegrity::try_from(raw),
    }
}

} // verus!
