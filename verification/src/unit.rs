//! One file as it lies on disk, plain or sealed, and the way from the one
//! to the other under a given key.
//!
//! A sealed file holds hex text twice: its name is the hex text of the
//! sealed name, its bytes are the hex text of the sealed contents. Contents
//! and name are sealed apart, under the first and the second nonce of a
//! sequence that starts anew for every file.

use crate::cipher::{aes_256_gcm_open, aes_256_gcm_seal, open, seal, TAG_LEN};
use crate::encoding::{
    bytes_of, hex_bytes, hex_chars, hex_decode, hex_encode, lemma_hex_chars_as_bytes,
    lemma_hex_round_trip, text_from_utf8,
};
use crate::error::CryptError;
use crate::nonce::{lemma_nonces_differ, nonce_bytes, CounterNonceSequence};
use vstd::prelude::*;
use vstd::utf8::*;

verus! {

/// The counter value of the nonce under which a file's contents are sealed.
pub const CONTENTS_COUNTER: u32 = 1;

/// The counter value of the nonce under which a file's name is sealed.
pub const NAME_COUNTER: u32 = 2;

/// A file as the engine sees it: its base name and its bytes.
pub struct FileModel {
    pub name: Seq<char>,
    pub contents: Seq<u8>,
}

/// A file handed to the engine or given back by it.
#[derive(Debug)]
pub struct FileImage {
    /// The base name, without any directory.
    pub name: String,
    /// All the bytes of the file.
    pub contents: Vec<u8>,
}

impl View for FileImage {
    type V = FileModel;

    open spec fn view(&self) -> FileModel {
        FileModel { name: self.name@, contents: self.contents@ }
    }
}

impl FileImage {
    /// The file to write for a sealed name and sealed contents: both as hex
    /// text, the one as the file's name, the other as its bytes.
    pub fn of_sealed(name: &[u8], contents: &[u8]) -> (file: FileImage)
        ensures
            file@ == file_of_sealed(name@, contents@),
            file.name@.len() == 2 * name@.len(),
            file.contents@.len() == 2 * contents@.len(),
    {
        proof {
            lemma_hex_chars_as_bytes(contents@);
        }
        FileImage {
            name: hex_encode(name),
            contents: hex_encode(contents).as_str().as_bytes_vec(),
        }
    }

    /// The file to write for an opened name and opened contents. The name
    /// has to be text.
    pub fn of_opened(name: Vec<u8>, contents: Vec<u8>) -> (r: Result<FileImage, CryptError>)
        ensures
            file_outcome(r) == file_of_opened(name@, contents@),
            r matches Ok(file) ==> encode_utf8(file.name@) == name@,
    {
        match text_from_utf8(name) {
            Some(text) => {
                proof {
                    encode_utf8_decode_utf8(text@);
                }
                Ok(FileImage { name: text, contents })
            },
            None => Err(CryptError::NameNotText),
        }
    }
}

/// What the cipher seals from `plain` under the nonce that carries
/// `counter`.
pub open spec fn sealed_bytes(key: Seq<u8>, counter: u32, plain: Seq<u8>) -> Option<Seq<u8>> {
    aes_256_gcm_seal(key, nonce_bytes(counter), plain)
}

/// The file that holds a sealed name and sealed contents: its name is the
/// hex text of the one, its bytes are the hex text of the other.
pub open spec fn file_of_sealed(name: Seq<u8>, contents: Seq<u8>) -> FileModel {
    FileModel { name: hex_chars(name), contents: encode_utf8(hex_chars(contents)) }
}

/// The sealed form of `file` under `key`: contents and name are sealed apart,
/// the contents first, and each is written as hex text.
pub open spec fn seal_file(key: Seq<u8>, file: FileModel) -> Result<FileModel, CryptError> {
    match sealed_bytes(key, CONTENTS_COUNTER, file.contents) {
        None => Err(CryptError::SealRefused),
        Some(contents) => match sealed_bytes(key, NAME_COUNTER, encode_utf8(file.name)) {
            None => Err(CryptError::SealRefused),
            Some(name) => Ok(file_of_sealed(name, contents)),
        },
    }
}

/// What the cipher opens from the hex text `text` under the nonce that
/// carries `counter`.
pub open spec fn opened_bytes(key: Seq<u8>, counter: u32, text: Seq<u8>) -> Result<
    Seq<u8>,
    CryptError,
> {
    match hex_bytes(text) {
        None => Err(CryptError::NotHex),
        Some(sealed) => match aes_256_gcm_open(key, nonce_bytes(counter), sealed) {
            None => Err(CryptError::Authentication),
            Some(plain) => Ok(plain),
        },
    }
}

/// The file that an opened name and opened contents make, where the name is
/// text.
pub open spec fn file_of_opened(name: Seq<u8>, contents: Seq<u8>) -> Result<
    FileModel,
    CryptError,
> {
    if valid_utf8(name) {
        Ok(FileModel { name: decode_utf8(name), contents })
    } else {
        Err(CryptError::NameNotText)
    }
}

/// The file that the sealed `file` holds under `key`, or the first thing
/// that is wrong with it: the contents are opened first, then the name.
pub open spec fn open_file(key: Seq<u8>, file: FileModel) -> Result<FileModel, CryptError> {
    match opened_bytes(key, CONTENTS_COUNTER, file.contents) {
        Err(e) => Err(e),
        Ok(contents) => match opened_bytes(key, NAME_COUNTER, encode_utf8(file.name)) {
            Err(e) => Err(e),
            Ok(name) => file_of_opened(name, contents),
        },
    }
}

/// The result `r` as the contracts speak of it: its error, or the name and
/// bytes of its file.
pub open spec fn file_outcome(r: Result<FileImage, CryptError>) -> Result<FileModel, CryptError> {
    match r {
        Ok(file) => Ok(file@),
        Err(e) => Err(e),
    }
}

/// Seals `plain` under the next nonce of `nonces`.
fn seal_next(key: &[u8], nonces: &mut CounterNonceSequence, plain: &[u8]) -> (r: Option<Vec<u8>>)
    requires
        old(nonces)@ < u32::MAX,
    ensures
        final(nonces)@ == old(nonces)@ + 1,
        sealed_bytes(key@, old(nonces)@, plain@) == bytes_of(r),
        r matches Some(sealed) ==> {
            &&& sealed@.len() == plain@.len() + TAG_LEN
            &&& aes_256_gcm_open(key@, nonce_bytes(old(nonces)@), sealed@) == Some(plain@)
        },
{
    match nonces.advance() {
        Ok(nonce) => seal(key, nonce, plain),
        Err(_) => unreached(),
    }
}

/// Reads `text` as hex and opens it under the next nonce of `nonces`.
fn open_next(key: &[u8], nonces: &mut CounterNonceSequence, text: &[u8]) -> (r: Result<
    Vec<u8>,
    CryptError,
>)
    requires
        old(nonces)@ < u32::MAX,
    ensures
        final(nonces)@ == old(nonces)@ + 1,
        match r {
            Ok(plain) => {
                &&& opened_bytes(key@, old(nonces)@, text@) == Ok::<Seq<u8>, CryptError>(plain@)
                &&& 2 * (plain@.len() + TAG_LEN) == text@.len()
            },
            Err(e) => opened_bytes(key@, old(nonces)@, text@) == Err::<Seq<u8>, CryptError>(e),
        },
{
    match nonces.advance() {
        Ok(nonce) => match hex_decode(text) {
            Some(sealed) => match open(key, nonce, sealed.as_slice()) {
                Some(plain) => Ok(plain),
                None => Err(CryptError::Authentication),
            },
            None => Err(CryptError::NotHex),
        },
        Err(_) => unreached(),
    }
}

/// Whether the cipher, where it seals `plain` under `key` and the nonce
/// that carries `counter`, opens what it sealed to `plain` again.
pub open spec fn reopens(key: Seq<u8>, counter: u32, plain: Seq<u8>) -> bool {
    sealed_bytes(key, counter, plain) matches Some(sealed) ==> aes_256_gcm_open(
        key,
        nonce_bytes(counter),
        sealed,
    ) == Some(plain)
}

/// Opening undoes sealing. As far as the cipher opens what it seals from the
/// contents and from the name, a sealed file opens under the same key to the
/// file it was sealed from: the text form and the order of the nonces lose
/// nothing.
pub proof fn lemma_open_undoes_seal(key: Seq<u8>, file: FileModel)
    requires
        reopens(key, CONTENTS_COUNTER, file.contents),
        reopens(key, NAME_COUNTER, encode_utf8(file.name)),
    ensures
        seal_file(key, file) matches Ok(sealed) ==> open_file(key, sealed) == Ok::<
            FileModel,
            CryptError,
        >(file),
{
    if seal_file(key, file) is Ok {
        lemma_hex_round_trip(sealed_bytes(key, CONTENTS_COUNTER, file.contents).unwrap());
        lemma_hex_round_trip(sealed_bytes(key, NAME_COUNTER, encode_utf8(file.name)).unwrap());
        encode_utf8_valid_utf8(file.name);
        encode_utf8_decode_utf8(file.name);
    }
}

/// The contents and the name of a file are never sealed under one nonce.
pub proof fn lemma_contents_and_name_nonces_differ()
    ensures
        nonce_bytes(CONTENTS_COUNTER) != nonce_bytes(NAME_COUNTER),
{
    lemma_nonces_differ(CONTENTS_COUNTER, NAME_COUNTER);
}

/// Seals one file under `key`: first its contents, then its name, each under
/// a nonce of its own from a fresh sequence. What comes back opens to the
/// file again under the same key.
pub fn seal_file_with(key: &[u8], name: &str, contents: &[u8]) -> (r: Result<FileImage, CryptError>)
    ensures
        file_outcome(r) == seal_file(key@, FileModel { name: name@, contents: contents@ }),
        r matches Ok(sealed) ==> {
            &&& open_file(key@, sealed@) == Ok::<FileModel, CryptError>(
                FileModel { name: name@, contents: contents@ },
            )
            &&& sealed.name@.len() == 2 * (encode_utf8(name@).len() + TAG_LEN)
            &&& sealed.contents@.len() == 2 * (contents@.len() + TAG_LEN)
        },
{
    let mut nonces = CounterNonceSequence::new();
    let sealed_contents = match seal_next(key, &mut nonces, contents) {
        Some(sealed) => sealed,
        None => {
            return Err(CryptError::SealRefused);
        },
    };
    let sealed_name = match seal_next(key, &mut nonces, name.as_bytes()) {
        Some(sealed) => sealed,
        None => {
            return Err(CryptError::SealRefused);
        },
    };
    proof {
        lemma_open_undoes_seal(key@, FileModel { name: name@, contents: contents@ });
    }
    Ok(FileImage::of_sealed(sealed_name.as_slice(), sealed_contents.as_slice()))
}

/// Opens one sealed file under `key`: first its contents, then its name,
/// each under the nonce it was sealed with. Nothing comes back unless both
/// open and the name is text.
pub fn open_file_with(key: &[u8], name: &str, contents: &[u8]) -> (r: Result<FileImage, CryptError>)
    ensures
        file_outcome(r) == open_file(key@, FileModel { name: name@, contents: contents@ }),
        r matches Ok(opened) ==> {
            &&& 2 * (encode_utf8(opened.name@).len() + TAG_LEN) == encode_utf8(name@).len()
            &&& 2 * (opened.contents@.len() + TAG_LEN) == contents@.len()
        },
{
    let mut nonces = CounterNonceSequence::new();
    let plain = match open_next(key, &mut nonces, contents) {
        Ok(plain) => plain,
        Err(e) => {
            return Err(e);
        },
    };
    let name_bytes = match open_next(key, &mut nonces, name.as_bytes()) {
        Ok(bytes) => bytes,
        Err(e) => {
            return Err(e);
        },
    };
    FileImage::of_opened(name_bytes, plain)
}

} // verus!
