use vstd::prelude::*;
use vstd::utf8::{decode_utf8, valid_utf8, encode_utf8_valid_utf8, encode_utf8_decode_utf8};
use vstd::slice::slice_to_vec;
use crate::err::LibcryptErr;
use crate::text::{
    decode_optional_text, decode_required_text, opt_bytes, opt_text, optional_text, required_text,
    text_spec,
};

verus! {

/// A verity parameter record as the engine fills it in. A pointer field is
/// `None` when the engine left it null, else the bytes it points to.
pub struct RawVerityParams {
    pub hash_name: Option<Vec<u8>>,
    pub data_device: Option<Vec<u8>>,
    pub hash_device: Option<Vec<u8>>,
    pub fec_device: Option<Vec<u8>>,
    pub salt: Option<Vec<u8>>,
    pub salt_size: u32,
    pub hash_type: u32,
    pub data_block_size: u32,
    pub hash_block_size: u32,
    pub data_size: u64,
    pub hash_area_offset: u64,
    pub fec_area_offset: u64,
    pub fec_roots: u32,
    pub flags: u32,
}

/// An integrity parameter record as the engine fills it in, pointers as in
/// [`RawVerityParams`].
pub struct RawIntegrityParams {
    pub journal_size: u64,
    pub journal_watermark: u32,
    pub journal_commit_time: u32,
    pub interleave_sectors: u32,
    pub tag_size: u32,
    pub sector_size: u32,
    pub buffer_sectors: u32,
    pub integrity: Option<Vec<u8>>,
    pub integrity_key_size: u32,
    pub journal_integrity: Option<Vec<u8>>,
    pub journal_integrity_key: Option<Vec<u8>>,
    pub journal_integrity_key_size: u32,
    pub journal_crypt: Option<Vec<u8>>,
    pub journal_crypt_key: Option<Vec<u8>>,
    pub journal_crypt_key_size: u32,
}

/// Parameters of a verity device.
pub struct CryptParamsVerity {
    pub hash_name: String,
    pub data_device: String,
    pub hash_device: String,
    pub fec_device: Option<String>,
    pub salt: Vec<u8>,
    pub hash_type: u32,
    pub data_block_size: u32,
    pub hash_block_size: u32,
    pub data_size: u64,
    pub hash_area_offset: u64,
    pub fec_area_offset: u64,
    pub fec_roots: u32,
    pub flags: u32,
}

/// Journal parameters of an integrity device.
pub struct CryptParamsJournal {
    pub journal_integrity: Option<String>,
    pub journal_integrity_key: Vec<u8>,
    pub journal_crypt: Option<String>,
    pub journal_crypt_key: Vec<u8>,
}

/// Parameters of an integrity device.
pub struct CryptParamsIntegrity {
    pub journal_size: u64,
    pub journal_watermark: u32,
    pub journal_commit_time: u32,
    pub interleave_sectors: u32,
    pub tag_size: u32,
    pub sector_size: u32,
    pub buffer_sectors: u32,
    pub integrity: Option<String>,
    pub integrity_key_size: u32,
    pub journal: Option<CryptParamsJournal>,
}

pub struct VerityView {
    pub hash_name: Seq<char>,
    pub data_device: Seq<char>,
    pub hash_device: Seq<char>,
    pub fec_device: Option<Seq<char>>,
    pub salt: Seq<u8>,
    pub hash_type: u32,
    pub data_block_size: u32,
    pub hash_block_size: u32,
    pub data_size: u64,
    pub hash_area_offset: u64,
    pub fec_area_offset: u64,
    pub fec_roots: u32,
    pub flags: u32,
}

pub struct JournalView {
    pub journal_integrity: Option<Seq<char>>,
    pub journal_integrity_key: Seq<u8>,
    pub journal_crypt: Option<Seq<char>>,
    pub journal_crypt_key: Seq<u8>,
}

pub struct IntegrityView {
    pub journal_size: u64,
    pub journal_watermark: u32,
    pub journal_commit_time: u32,
    pub interleave_sectors: u32,
    pub tag_size: u32,
    pub sector_size: u32,
    pub buffer_sectors: u32,
    pub integrity: Option<Seq<char>>,
    pub integrity_key_size: u32,
    pub journal: Option<JournalView>,
}

impl View for CryptParamsVerity {
    type V = VerityView;

    open spec fn view(&self) -> VerityView {
        VerityView {
            hash_name: self.hash_name@,
            data_device: self.data_device@,
            hash_device: self.hash_device@,
            fec_device: opt_text(self.fec_device),
            salt: self.salt@,
            hash_type: self.hash_type,
            data_block_size: self.data_block_size,
            hash_block_size: self.hash_block_size,
            data_size: self.data_size,
            hash_area_offset: self.hash_area_offset,
            fec_area_offset: self.fec_area_offset,
            fec_roots: self.fec_roots,
            flags: self.flags,
        }
    }
}

impl View for CryptParamsJournal {
    type V = JournalView;

    open spec fn view(&self) -> JournalView {
        JournalView {
            journal_integrity: opt_text(self.journal_integrity),
            journal_integrity_key: self.journal_integrity_key@,
            journal_crypt: opt_text(self.journal_crypt),
            journal_crypt_key: self.journal_crypt_key@,
        }
    }
}

impl View for CryptParamsIntegrity {
    type V = IntegrityView;

    open spec fn view(&self) -> IntegrityView {
        IntegrityView {
            journal_size: self.journal_size,
            journal_watermark: self.journal_watermark,
            journal_commit_time: self.journal_commit_time,
            interleave_sectors: self.interleave_sectors,
            tag_size: self.tag_size,
            sector_size: self.sector_size,
            buffer_sectors: self.buffer_sectors,
            integrity: opt_text(self.integrity),
            integrity_key_size: self.integrity_key_size,
            journal: match self.journal {
                Some(j) => Some(j@),
                None => None,
            },
        }
    }
}

impl CryptParamsIntegrity {
    /// A journal, when there is one, names at least one of its algorithms.
    pub open spec fn wf(&self) -> bool {
        self.journal matches Some(j) ==> (j.journal_integrity is Some || j.journal_crypt is Some)
    }
}

/// The view of a decoding result, with its error unchanged.
pub open spec fn view_result<T: View>(r: Result<T, LibcryptErr>) -> Result<T::V, LibcryptErr> {
    match r {
        Ok(v) => Ok(v@),
        Err(e) => Err(e),
    }
}

/// A pointer and its length: a null pointer stands for no bytes only when the
/// length is zero, and a buffer must hold exactly the length. `None` is a
/// decoding failure.
pub open spec fn sized_bytes(p: Option<Seq<u8>>, size: u32) -> Option<Seq<u8>> {
    match p {
        Some(b) => if b.len() == size { Some(b) } else { None },
        None => if size == 0 { Some(Seq::empty()) } else { None },
    }
}

/// What a raw verity record decodes to.
pub open spec fn decode_verity_spec(raw: RawVerityParams) -> Result<VerityView, LibcryptErr> {
    match (
        required_text(opt_bytes(raw.hash_name)),
        required_text(opt_bytes(raw.data_device)),
        required_text(opt_bytes(raw.hash_device)),
        optional_text(opt_bytes(raw.fec_device)),
        sized_bytes(opt_bytes(raw.salt), raw.salt_size),
    ) {
        (Some(h), Some(d), Some(hd), Some(f), Some(s)) => Ok(
            VerityView {
                hash_name: h,
                data_device: d,
                hash_device: hd,
                fec_device: f,
                salt: s,
                hash_type: raw.hash_type,
                data_block_size: raw.data_block_size,
                hash_block_size: raw.hash_block_size,
                data_size: raw.data_size,
                hash_area_offset: raw.hash_area_offset,
                fec_area_offset: raw.fec_area_offset,
                fec_roots: raw.fec_roots,
                flags: raw.flags,
            },
        ),
        _ => Err(LibcryptErr::DecodeError),
    }
}

/// What the journal fields of a raw integrity record decode to. Both key
/// pointer and length pairs must agree on every record; the journal is then
/// absent when neither journal algorithm is named.
pub open spec fn decode_journal_spec(raw: RawIntegrityParams) -> Option<Option<JournalView>> {
    match (
        sized_bytes(opt_bytes(raw.journal_integrity_key), raw.journal_integrity_key_size),
        sized_bytes(opt_bytes(raw.journal_crypt_key), raw.journal_crypt_key_size),
    ) {
        (Some(jik), Some(jck)) => if raw.journal_integrity is None && raw.journal_crypt is None {
            Some(None)
        } else {
            match (
                optional_text(opt_bytes(raw.journal_integrity)),
                optional_text(opt_bytes(raw.journal_crypt)),
            ) {
                (Some(ji), Some(jc)) => Some(
                    Some(
                        JournalView {
                            journal_integrity: ji,
                            journal_integrity_key: jik,
                            journal_crypt: jc,
                            journal_crypt_key: jck,
                        },
                    ),
                ),
                _ => None,
            }
        },
        _ => None,
    }
}

/// What a raw integrity record decodes to.
pub open spec fn decode_integrity_spec(raw: RawIntegrityParams) -> Result<IntegrityView, LibcryptErr> {
    match (optional_text(opt_bytes(raw.integrity)), decode_journal_spec(raw)) {
        (Some(i), Some(j)) => Ok(
            IntegrityView {
                journal_size: raw.journal_size,
                journal_watermark: raw.journal_watermark,
                journal_commit_time: raw.journal_commit_time,
                interleave_sectors: raw.interleave_sectors,
                tag_size: raw.tag_size,
                sector_size: raw.sector_size,
                buffer_sectors: raw.buffer_sectors,
                integrity: i,
                integrity_key_size: raw.integrity_key_size,
                journal: j,
            },
        ),
        _ => Err(LibcryptErr::DecodeError),
    }
}

/// Copies a pointer and length pair into an owned buffer of exactly that
/// length; `None` when they disagree.
pub fn decode_sized_bytes(p: &Option<Vec<u8>>, size: u32) -> (r: Option<Vec<u8>>)
    ensures
        opt_bytes(r) == sized_bytes(opt_bytes(*p), size),
{
    match p {
        Some(b) => if b.len() == size as usize {
            Some(slice_to_vec(b.as_slice()))
        } else {
            None
        },
        None => if size == 0 {
            let v: Vec<u8> = Vec::new();
            assert(v@ =~= Seq::<u8>::empty());
            Some(v)
        } else {
            None
        },
    }
}

impl CryptParamsVerity {
    /// Decodes a verity record the engine filled in into owned parameters.
    pub fn try_from(raw: &RawVerityParams) -> (r: Result<CryptParamsVerity, LibcryptErr>)
        ensures
            view_result(r) == decode_verity_spec(*raw),
    {
        let hash_name = match decode_required_text(&raw.hash_name) {
            Some(t) => t,
            None => return Err(LibcryptErr::DecodeError),
        };
        let data_device = match decode_required_text(&raw.data_device) {
            Some(t) => t,
            None => return Err(LibcryptErr::DecodeError),
        };
        let hash_device = match decode_required_text(&raw.hash_device) {
            Some(t) => t,
            None => return Err(LibcryptErr::DecodeError),
        };
        let fec_device = match decode_optional_text(&raw.fec_device) {
            Some(t) => t,
            None => return Err(LibcryptErr::DecodeError),
        };
        let salt = match decode_sized_bytes(&raw.salt, raw.salt_size) {
            Some(b) => b,
            None => return Err(LibcryptErr::DecodeError),
        };
        Ok(
            CryptParamsVerity {
                hash_name,
                data_device,
                hash_device,
                fec_device,
                salt,
                hash_type: raw.hash_type,
                data_block_size: raw.data_block_size,
                hash_block_size: raw.hash_block_size,
                data_size: raw.data_size,
                hash_area_offset: raw.hash_area_offset,
                fec_area_offset: raw.fec_area_offset,
                fec_roots: raw.fec_roots,
                flags: raw.flags,
            },
        )
    }
}

/// Decodes the journal fields of an integrity record; the outer `None` is a
/// decoding failure.
fn decode_journal(raw: &RawIntegrityParams) -> (r: Option<Option<CryptParamsJournal>>)
    ensures
        match r {
            Some(Some(j)) => decode_journal_spec(*raw) == Some(Some(j@)),
            Some(None) => decode_journal_spec(*raw) == Some(None::<JournalView>),
            None => decode_journal_spec(*raw) is None,
        },
{
    let journal_integrity_key = match decode_sized_bytes(
        &raw.journal_integrity_key,
        raw.journal_integrity_key_size,
    ) {
        Some(b) => b,
        None => return None,
    };
    let journal_crypt_key = match decode_sized_bytes(
        &raw.journal_crypt_key,
        raw.journal_crypt_key_size,
    ) {
        Some(b) => b,
        None => return None,
    };
    if raw.journal_integrity.is_none() && raw.journal_crypt.is_none() {
        return Some(None);
    }
    let journal_integrity = match decode_optional_text(&raw.journal_integrity) {
        Some(t) => t,
        None => return None,
    };
    let journal_crypt = match decode_optional_text(&raw.journal_crypt) {
        Some(t) => t,
        None => return None,
    };
    Some(
        Some(
            CryptParamsJournal {
                journal_integrity,
                journal_integrity_key,
                journal_crypt,
                journal_crypt_key,
            },
        ),
    )
}

/// The UTF-8 bytes of a text, which decode back to it.
fn text_bytes(s: &String) -> (r: Vec<u8>)
    ensures
        text_spec(r@) == Some(s@),
{
    let r = slice_to_vec(s.as_str().as_bytes());
    proof {
        encode_utf8_valid_utf8(s@);
        encode_utf8_decode_utf8(s@);
    }
    r
}

/// A possibly absent text as a possibly null buffer.
fn optional_text_bytes(o: &Option<String>) -> (r: Option<Vec<u8>>)
    ensures
        optional_text(opt_bytes(r)) == Some(opt_text(*o)),
        o is None <==> r is None,
{
    match o {
        Some(s) => Some(text_bytes(s)),
        None => None,
    }
}

impl CryptParamsIntegrity {
    /// Decodes an integrity record the engine filled in into owned parameters.
    pub fn try_from(raw: &RawIntegrityParams) -> (r: Result<CryptParamsIntegrity, LibcryptErr>)
        ensures
            view_result(r) == decode_integrity_spec(*raw),
    {
        let integrity = match decode_optional_text(&raw.integrity) {
            Some(t) => t,
            None => return Err(LibcryptErr::DecodeError),
        };
        let journal = match decode_journal(raw) {
            Some(j) => j,
            None => return Err(LibcryptErr::DecodeError),
        };
        let r = CryptParamsIntegrity {
            journal_size: raw.journal_size,
            journal_watermark: raw.journal_watermark,
            journal_commit_time: raw.journal_commit_time,
            interleave_sectors: raw.interleave_sectors,
            tag_size: raw.tag_size,
            sector_size: raw.sector_size,
            buffer_sectors: raw.buffer_sectors,
            integrity,
            integrity_key_size: raw.integrity_key_size,
            journal,
        };
        Ok(r)
    }

    /// Lays the parameters out as the record the engine would fill in, so that
    /// decoding it gives them back.
    pub fn to_raw(&self) -> (r: RawIntegrityParams)
        requires
            self.journal matches Some(j) ==> (j.journal_integrity_key@.len() <= u32::MAX
                && j.journal_crypt_key@.len() <= u32::MAX),
        ensures
            self.wf() ==> decode_integrity_spec(r) == Ok::<IntegrityView, LibcryptErr>(self@),
    {
        let integrity = optional_text_bytes(&self.integrity);
        let mut r = RawIntegrityParams {
            journal_size: self.journal_size,
            journal_watermark: self.journal_watermark,
            journal_commit_time: self.journal_commit_time,
            interleave_sectors: self.interleave_sectors,
            tag_size: self.tag_size,
            sector_size: self.sector_size,
            buffer_sectors: self.buffer_sectors,
            integrity,
            integrity_key_size: self.integrity_key_size,
            journal_integrity: None,
            journal_integrity_key: None,
            journal_integrity_key_size: 0,
            journal_crypt: None,
            journal_crypt_key: None,
            journal_crypt_key_size: 0,
        };
        match &self.journal {
            Some(j) => {
                r.journal_integrity = optional_text_bytes(&j.journal_integrity);
                r.journal_integrity_key = Some(slice_to_vec(j.journal_integrity_key.as_slice()));
                r.journal_integrity_key_size = j.journal_integrity_key.len() as u32;
                r.journal_crypt = optional_text_bytes(&j.journal_crypt);
                r.journal_crypt_key = Some(slice_to_vec(j.journal_crypt_key.as_slice()));
                r.journal_crypt_key_size = j.journal_crypt_key.len() as u32;
                proof {
                    assert(sized_bytes(opt_bytes(r.journal_integrity_key), r.journal_integrity_key_size)
                        == Some(j.journal_integrity_key@));
                    assert(sized_bytes(opt_bytes(r.journal_crypt_key), r.journal_crypt_key_size)
                        == Some(j.journal_crypt_key@));
                    if self.wf() {
                        assert(decode_journal_spec(r) == Some(Some(j@)));
                    }
                }
            },
            None => {},
        }
        r
    }
}

/// A record with an integrity algorithm, no journal algorithm and journal
/// keys whose pointers agree with their lengths decodes to parameters that
/// carry that algorithm and no journal.
pub proof fn lemma_integrity_without_journal(raw: RawIntegrityParams)
    requires
        raw.integrity matches Some(b) && valid_utf8(b@),
        raw.journal_integrity is None,
        raw.journal_crypt is None,
        sized_bytes(opt_bytes(raw.journal_integrity_key), raw.journal_integrity_key_size) is Some,
        sized_bytes(opt_bytes(raw.journal_crypt_key), raw.journal_crypt_key_size) is Some,
    ensures
        decode_integrity_spec(raw) matches Ok(v) && v.journal is None && v.integrity
            == Some(decode_utf8(raw.integrity->0@)),
{
}

/// A verity record whose salt length is zero and whose salt pointer is set
/// (to no bytes) decodes to an empty salt: the salt is never the reason it
/// fails.
pub proof fn lemma_verity_empty_salt(raw: RawVerityParams)
    requires
        raw.salt_size == 0,
        raw.salt matches Some(b) && b@.len() == 0,
    ensures
        decode_verity_spec(raw) matches Ok(v) ==> v.salt.len() == 0,
        decode_verity_spec(raw) is Err <==> (required_text(opt_bytes(raw.hash_name)) is None
            || required_text(opt_bytes(raw.data_device)) is None || required_text(
            opt_bytes(raw.hash_device),
        ) is None || optional_text(opt_bytes(raw.fec_device)) is None),
{
}

/// A verity record that announces salt bytes but leaves the salt pointer
/// null is a decoding failure.
pub proof fn lemma_verity_null_salt(raw: RawVerityParams)
    requires
        raw.salt_size > 0,
        raw.salt is None,
    ensures
        decode_verity_spec(raw) == Err::<VerityView, LibcryptErr>(LibcryptErr::DecodeError),
{
}

} // verus!
