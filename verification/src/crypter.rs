//! The engine: one key, and the sealing or opening of one file at a time.

use crate::cipher::{random_bytes, KEY_LEN};
use crate::encoding::{
    bytes_of, hex_bytes, hex_chars, hex_decode, hex_encode, lemma_hex_round_trip, text_of,
};
use crate::error::CryptError;
use crate::unit::{
    file_outcome, open_file, open_file_with, seal_file, seal_file_with, FileImage, FileModel,
};
use vstd::prelude::*;
use vstd::utf8::*;

verus! {

/// The key that `text` stands for: its 32 bytes, where it is their hex text.
pub open spec fn key_of_text(text: Seq<char>) -> Option<Seq<u8>> {
    match hex_bytes(encode_utf8(text)) {
        Some(key) => if key.len() == KEY_LEN {
            Some(key)
        } else {
            None
        },
        None => None,
    }
}

/// Reads a key from its hex text.
pub fn key_from_text(text: &str) -> (r: Option<Vec<u8>>)
    ensures
        match r {
            Some(key) => key_of_text(text@) == Some(key@),
            None => key_of_text(text@) is None,
        },
{
    match hex_decode(text.as_bytes()) {
        Some(key) => if key.len() == KEY_LEN {
            Some(key)
        } else {
            None
        },
        None => None,
    }
}

/// The hex text of a key has 64 digits and reads back as that key.
pub proof fn lemma_key_text(key: Seq<u8>)
    requires
        key.len() == KEY_LEN,
    ensures
        hex_chars(key).len() == 2 * KEY_LEN,
        key_of_text(hex_chars(key)) == Some(key),
{
    lemma_hex_round_trip(key);
}

/// Which way an engine works.
#[derive(Clone, Copy, Debug, PartialEq, Eq, Structural)]
pub enum Direction {
    /// It seals files, under a key of its own making.
    Encrypt,
    /// It opens files, under the key it was given.
    Decrypt,
}

/// Where an engine's key stands.
pub enum KeyState {
    /// No key was supplied and none has been made yet.
    Unset,
    /// The engine made this key and has given it out.
    Generated(Seq<u8>),
    /// The caller supplied this text as the key.
    Supplied(Seq<char>),
}

impl KeyState {
    /// The state that an engine starts in when it is given `text` as its
    /// key: no text means that the engine is to make a key.
    pub open spec fn of_text(text: Seq<char>) -> KeyState {
        if text.len() == 0 {
            KeyState::Unset
        } else {
            KeyState::Supplied(text)
        }
    }

    /// What every engine's state meets: a key it made has the cipher's
    /// length, and a supplied text is not empty.
    pub open spec fn wf(self) -> bool {
        match self {
            KeyState::Unset => true,
            KeyState::Generated(key) => key.len() == KEY_LEN,
            KeyState::Supplied(text) => text.len() > 0,
        }
    }

    /// The way of an engine in this state. It is that of the state the
    /// engine started in: a supplied key opens, anything else seals.
    pub open spec fn direction(self) -> Direction {
        match self {
            KeyState::Supplied(_) => Direction::Decrypt,
            _ => Direction::Encrypt,
        }
    }

    /// Whether a key text was supplied that is not the hex text of a key.
    pub open spec fn key_is_bad(self) -> bool {
        self matches KeyState::Supplied(text) && key_of_text(text) is None
    }

    /// The key to seal under, where `drawn` is what the random source gave
    /// for a new key.
    pub open spec fn sealing_key(self, drawn: Option<Seq<u8>>) -> Result<Seq<u8>, CryptError> {
        match self {
            KeyState::Unset => match drawn {
                Some(key) => if key.len() == KEY_LEN {
                    Ok(key)
                } else {
                    Err(CryptError::NoRandomness)
                },
                None => Err(CryptError::NoRandomness),
            },
            KeyState::Generated(key) => Ok(key),
            KeyState::Supplied(text) => match key_of_text(text) {
                Some(key) => Ok(key),
                None => Err(CryptError::KeyFormat),
            },
        }
    }

    /// The key to open under.
    pub open spec fn opening_key(self) -> Result<Seq<u8>, CryptError> {
        match self {
            KeyState::Unset => Err(CryptError::KeyFormat),
            KeyState::Generated(key) => Ok(key),
            KeyState::Supplied(text) => match key_of_text(text) {
                Some(key) => Ok(key),
                None => Err(CryptError::KeyFormat),
            },
        }
    }
}

/// The key as the engine holds it.
enum StoredKey {
    Unset,
    Generated(Vec<u8>),
    Supplied(String),
}

impl View for StoredKey {
    type V = KeyState;

    closed spec fn view(&self) -> KeyState {
        match self {
            StoredKey::Unset => KeyState::Unset,
            StoredKey::Generated(key) => KeyState::Generated(key@),
            StoredKey::Supplied(text) => KeyState::Supplied(text@),
        }
    }
}

/// What one call of the engine gives back, as the contracts speak of it.
pub struct CryptedModel {
    pub output: FileModel,
    pub generated_key: Option<Seq<char>>,
}

/// What one call of the engine gives back.
#[derive(Debug)]
pub struct Crypted {
    /// The file to write in place of the one handed in.
    pub output: FileImage,
    /// The key as hex text, where this call made it; nothing otherwise.
    pub generated_key: Option<String>,
}

impl View for Crypted {
    type V = CryptedModel;

    open spec fn view(&self) -> CryptedModel {
        CryptedModel {
            output: self.output@,
            generated_key: text_of(self.generated_key),
        }
    }
}

/// The result `r` as the contracts speak of it.
pub open spec fn outcome(r: Result<Crypted, CryptError>) -> Result<CryptedModel, CryptError> {
    match r {
        Ok(crypted) => Ok(crypted@),
        Err(e) => Err(e),
    }
}

/// The outcome that hands `file` on with no key, or its error.
pub open spec fn without_key(file: Result<FileModel, CryptError>) -> Result<
    CryptedModel,
    CryptError,
> {
    match file {
        Ok(output) => Ok(CryptedModel { output, generated_key: None }),
        Err(e) => Err(e),
    }
}

/// What opening `input` does in state `state`: the key is looked at before
/// the file, and the state stays.
pub open spec fn decrypt_model(state: KeyState, input: FileModel) -> Result<FileModel, CryptError> {
    match state.opening_key() {
        Err(e) => Err(e),
        Ok(key) => open_file(key, input),
    }
}

/// What sealing `input` does in state `state`, where `drawn` is what the
/// random source gave: the state after it, and the outcome.
///
/// Only a state without a key changes, and only when the file is sealed: it
/// takes `drawn` as its key and gives the hex text of it out.
pub open spec fn encrypt_model(state: KeyState, drawn: Option<Seq<u8>>, input: FileModel) -> (
    KeyState,
    Result<CryptedModel, CryptError>,
) {
    match state.sealing_key(drawn) {
        Err(e) => (state, Err(e)),
        Ok(key) => match seal_file(key, input) {
            Err(e) => (state, Err(e)),
            Ok(output) => if state is Unset {
                (
                    KeyState::Generated(key),
                    Ok(CryptedModel { output, generated_key: Some(hex_chars(key)) }),
                )
            } else {
                (state, Ok(CryptedModel { output, generated_key: None }))
            },
        },
    }
}

/// The engine. It owns its key for as long as it lives.
pub struct Crypter {
    key: StoredKey,
}

impl View for Crypter {
    type V = KeyState;

    closed spec fn view(&self) -> KeyState {
        self.key@
    }
}

impl Crypter {
    #[verifier::type_invariant]
    spec fn well_formed(&self) -> bool {
        self.key@.wf()
    }

    /// An engine for `key`. With a key text it opens files under that key;
    /// the text is looked at only when a file is handed in. With no text it
    /// seals files, and makes its key when the first one is handed in.
    pub fn new(key: String) -> (crypter: Self)
        ensures
            crypter@ == KeyState::of_text(key@),
            crypter@.wf(),
    {
        if key.as_str().is_empty() {
            Crypter { key: StoredKey::Unset }
        } else {
            Crypter { key: StoredKey::Supplied(key) }
        }
    }

    /// Which way this engine works.
    pub fn direction(&self) -> (d: Direction)
        ensures
            d == self@.direction(),
            self@.wf(),
    {
        proof {
            use_type_invariant(self);
        }
        match &self.key {
            StoredKey::Supplied(_) => Direction::Decrypt,
            _ => Direction::Encrypt,
        }
    }

    /// Says whether the key this engine was given can be used, without
    /// looking at any file. An engine that makes its own key has nothing to
    /// check.
    pub fn check_key(&self) -> (r: Result<(), CryptError>)
        ensures
            r == (if self@.key_is_bad() {
                Err::<(), CryptError>(CryptError::KeyFormat)
            } else {
                Ok::<(), CryptError>(())
            }),
    {
        match &self.key {
            StoredKey::Supplied(text) => match key_from_text(text.as_str()) {
                Some(_) => Ok(()),
                None => Err(CryptError::KeyFormat),
            },
            _ => Ok(()),
        }
    }

    /// Handles one file, the way this engine works: an engine that was given
    /// a key opens the file under it, any other seals it under a key of its
    /// own. That key is made when the first file is sealed, is given out with
    /// that file and with no other, and stays for every file after it.
    ///
    /// On an error the engine is left as it was and nothing is to be written.
    pub fn crypt(&mut self, file_name: &str, contents: &[u8]) -> (r: Result<Crypted, CryptError>)
        ensures
            final(self)@.wf(),
            final(self)@.direction() == old(self)@.direction(),
            (r matches Err(e) && e == CryptError::KeyFormat) <==> old(self)@.key_is_bad(),
            match old(self)@ {
                KeyState::Supplied(_) => {
                    &&& final(self)@ == old(self)@
                    &&& outcome(r) == without_key(
                        decrypt_model(
                            old(self)@,
                            FileModel { name: file_name@, contents: contents@ },
                        ),
                    )
                },
                KeyState::Generated(key) => {
                    &&& (final(self)@, outcome(r)) == encrypt_model(
                        old(self)@,
                        None,
                        FileModel { name: file_name@, contents: contents@ },
                    )
                    &&& r matches Ok(crypted) ==> open_file(key, crypted.output@) == Ok::<
                        FileModel,
                        CryptError,
                    >(FileModel { name: file_name@, contents: contents@ })
                },
                KeyState::Unset => match r {
                    Ok(crypted) => {
                        &&& final(self)@ matches KeyState::Generated(key)
                        &&& (final(self)@, outcome(r)) == encrypt_model(
                            old(self)@,
                            Some(key),
                            FileModel { name: file_name@, contents: contents@ },
                        )
                        &&& open_file(key, crypted.output@) == Ok::<FileModel, CryptError>(
                            FileModel { name: file_name@, contents: contents@ },
                        )
                    },
                    Err(e) => {
                        &&& final(self)@ == old(self)@
                        &&& e == CryptError::NoRandomness || e == CryptError::SealRefused
                    },
                },
            },
    {
        match self.direction() {
            Direction::Decrypt => match self.decrypt(file_name, contents) {
                Ok(output) => Ok(Crypted { output, generated_key: None }),
                Err(e) => Err(e),
            },
            Direction::Encrypt => {
                let drawn = if self.has_key() {
                    None
                } else {
                    random_bytes(KEY_LEN)
                };
                self.encrypt(drawn, file_name, contents)
            },
        }
    }

    /// Whether the engine holds a key or a key text.
    pub fn has_key(&self) -> (b: bool)
        ensures
            b == !(self@ is Unset),
    {
        match &self.key {
            StoredKey::Unset => false,
            _ => true,
        }
    }

    /// Opens one sealed file under the engine's key. The key is looked at
    /// before the file: a key that cannot be used is reported whatever the
    /// file holds. The engine is left as it was.
    pub fn decrypt(&self, file_name: &str, contents: &[u8]) -> (r: Result<FileImage, CryptError>)
        ensures
            file_outcome(r) == decrypt_model(
                self@,
                FileModel { name: file_name@, contents: contents@ },
            ),
    {
        match &self.key {
            StoredKey::Unset => Err(CryptError::KeyFormat),
            StoredKey::Generated(key) => open_file_with(key.as_slice(), file_name, contents),
            StoredKey::Supplied(text) => match key_from_text(text.as_str()) {
                Some(key) => open_file_with(key.as_slice(), file_name, contents),
                None => Err(CryptError::KeyFormat),
            },
        }
    }

    /// Seals one file under the engine's key, where `drawn` is what the
    /// random source gave in case a key has to be made.
    ///
    /// An engine without a key takes `drawn` as its key, keeps it, and gives
    /// its hex text out with the sealed file: this happens once, and only
    /// together with a sealed file. An engine that has a key seals under it,
    /// gives no key out and stays as it was. What is sealed opens to the file
    /// again under the same key.
    pub fn encrypt(&mut self, drawn: Option<Vec<u8>>, file_name: &str, contents: &[u8]) -> (r:
        Result<Crypted, CryptError>)
        ensures
            final(self)@.wf(),
            (final(self)@, outcome(r)) == encrypt_model(
                old(self)@,
                bytes_of(drawn),
                FileModel { name: file_name@, contents: contents@ },
            ),
            r matches Ok(crypted) ==> old(self)@.sealing_key(bytes_of(drawn)) matches Ok(key)
                && open_file(key, crypted.output@) == Ok::<FileModel, CryptError>(
                FileModel { name: file_name@, contents: contents@ },
            ),
    {
        proof {
            use_type_invariant(&*self);
        }
        match &self.key {
            StoredKey::Generated(key) => {
                return match seal_file_with(key.as_slice(), file_name, contents) {
                    Ok(output) => Ok(Crypted { output, generated_key: None }),
                    Err(e) => Err(e),
                };
            },
            StoredKey::Supplied(text) => {
                let key = match key_from_text(text.as_str()) {
                    Some(key) => key,
                    None => {
                        return Err(CryptError::KeyFormat);
                    },
                };
                return match seal_file_with(key.as_slice(), file_name, contents) {
                    Ok(output) => Ok(Crypted { output, generated_key: None }),
                    Err(e) => Err(e),
                };
            },
            StoredKey::Unset => {},
        }
        let key = match drawn {
            Some(key) => key,
            None => {
                return Err(CryptError::NoRandomness);
            },
        };
        if key.len() != KEY_LEN {
            return Err(CryptError::NoRandomness);
        }
        match seal_file_with(key.as_slice(), file_name, contents) {
            Ok(output) => {
                let text = hex_encode(key.as_slice());
                self.key = StoredKey::Generated(key);
                Ok(Crypted { output, generated_key: Some(text) })
            },
            Err(e) => Err(e),
        }
    }
}

/// An engine that makes its key gives out 64 hex digits that read back as
/// the 32 bytes it keeps, and it does so only together with a sealed file.
pub proof fn lemma_generated_key_length(drawn: Option<Seq<u8>>, input: FileModel)
    ensures
        ({
            let (state, r) = encrypt_model(KeyState::Unset, drawn, input);
            match r {
                Ok(crypted) => {
                    &&& state matches KeyState::Generated(key)
                    &&& key.len() == KEY_LEN
                    &&& crypted.generated_key matches Some(text)
                    &&& text.len() == 2 * KEY_LEN
                    &&& key_of_text(text) == Some(key)
                },
                Err(_) => state == KeyState::Unset,
            }
        }),
{
    let (state, r) = encrypt_model(KeyState::Unset, drawn, input);
    if r is Ok {
        lemma_key_text(drawn.unwrap());
    }
}

/// A key text that is not the hex text of 32 bytes is refused as such
/// whatever the file holds.
pub proof fn lemma_bad_key_refused_first(text: Seq<char>, input: FileModel)
    requires
        key_of_text(text) is None,
    ensures
        decrypt_model(KeyState::of_text(text), input) == Err::<FileModel, CryptError>(
            CryptError::KeyFormat,
        ),
{
}

/// The key is given out once. An engine that has made `key` with its first
/// file seals every later file under that key, gives nothing out with it
/// and keeps the key, whatever the random source would give; and an engine
/// that is later given the text that went out opens under that key.
pub proof fn lemma_key_given_out_once(
    key: Seq<u8>,
    first: FileModel,
    drawn_later: Option<Seq<u8>>,
    later: FileModel,
)
    ensures
        ({
            let (state, r) = encrypt_model(KeyState::Unset, Some(key), first);
            r matches Ok(crypted) ==> {
                &&& state == KeyState::Generated(key)
                &&& crypted.generated_key == Some(hex_chars(key))
                &&& encrypt_model(state, drawn_later, later) == (
                    state,
                    without_key(seal_file(key, later)),
                )
                &&& KeyState::of_text(hex_chars(key)).opening_key() == Ok::<
                    Seq<u8>,
                    CryptError,
                >(key)
            }
        }),
{
    if encrypt_model(KeyState::Unset, Some(key), first).1 is Ok {
        lemma_key_text(key);
    }
}

} // verus!
