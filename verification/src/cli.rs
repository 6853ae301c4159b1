//! What the operator asked for on the command line.

use crate::files::texts_of;
use vstd::prelude::*;

verus! {

/// The operator's wishes, as given.
#[derive(Debug)]
pub struct Cli {
    /// The key to open files with, if one was given.
    decrypt: Option<String>,
    /// Whether directories are to be entered.
    pub recursive: bool,
    /// The files or directories to work on, if any were given.
    files: Option<Vec<String>>,
}

/// What a `Cli` holds.
pub struct CliModel {
    pub decrypt: Option<Seq<char>>,
    pub recursive: bool,
    pub files: Option<Seq<Seq<char>>>,
}

impl View for Cli {
    type V = CliModel;

    closed spec fn view(&self) -> CliModel {
        CliModel {
            decrypt: match self.decrypt {
                Some(key) => Some(key@),
                None => None,
            },
            recursive: self.recursive,
            files: match self.files {
                Some(files) => Some(texts_of(files@)),
                None => None,
            },
        }
    }
}

impl CliModel {
    /// The paths to work on: those given, or none.
    pub open spec fn paths(self) -> Seq<Seq<char>> {
        match self.files {
            Some(files) => files,
            None => Seq::empty(),
        }
    }

    /// The key text for the engine: the key given, or the empty text, which
    /// asks the engine to make a key.
    pub open spec fn decryption_key(self) -> Seq<char> {
        match self.decrypt {
            Some(key) => key,
            None => Seq::empty(),
        }
    }
}

impl Cli {
    /// The wishes made of their parts.
    pub fn new(decrypt: Option<String>, recursive: bool, files: Option<Vec<String>>) -> (cli: Self)
        ensures
            cli@ == (CliModel {
                decrypt: match decrypt {
                    Some(key) => Some(key@),
                    None => None,
                },
                recursive,
                files: match files {
                    Some(files) => Some(texts_of(files@)),
                    None => None,
                },
            }),
    {
        Cli { decrypt, recursive, files }
    }

    /// The paths to work on, in the order given; none where none were given.
    pub fn get_paths(&self) -> (paths: Vec<String>)
        ensures
            texts_of(paths@) == self@.paths(),
    {
        let mut paths: Vec<String> = Vec::new();
        match &self.files {
            Some(files) => {
                let mut i: usize = 0;
                while i < files.len()
                    invariant
                        i <= files@.len(),
                        paths@.len() == i,
                        forall|j: int| 0 <= j < i ==> (#[trigger] paths@[j])@ == files@[j]@,
                    decreases files@.len() - i,
                {
                    paths.push(files[i].clone());
                    i = i + 1;
                }
                assert(texts_of(paths@) =~= texts_of(files@));
            },
            None => {
                assert(texts_of(paths@) =~= Seq::<Seq<char>>::empty());
            },
        }
        paths
    }

    /// The key text to hand to the engine: the key given, or the empty text
    /// where none was given.
    pub fn get_decryption_key(&self) -> (key: String)
        ensures
            key@ == self@.decryption_key(),
    {
        match &self.decrypt {
            Some(key) => key.clone(),
            None => String::new(),
        }
    }
}

} // verus!
