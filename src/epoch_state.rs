//! The record of the last epoch for which a crank cycle completed.
//!
//! The memory backend keeps it in the store alone. The file backend keeps it
//! as the decimal text of the epoch in one file: the caller reads that file
//! and hands its text to `load`, and writes the text that `save` returns.
use vstd::prelude::*;
use crate::config::EpochStorageType;
use crate::error::CrankerError;
use crate::text::{
    decimal, decimal_string, lemma_decimal_round_trip, parse_u64, parse_u64_chars, trim_chars,
    trimmed,
};

verus! {

/// The text of a file, or none where the file does not exist.
pub open spec fn content_view(content: Option<&str>) -> Option<Seq<char>> {
    match content {
        Some(c) => Some(c@),
        None => None,
    }
}

/// What loading from the file backend gives: no epoch where the file does
/// not exist, the epoch that its trimmed text spells, or none at all (a
/// failure) where that text is not a number.
pub open spec fn loaded_from_file(content: Option<Seq<char>>) -> Option<Option<u64>> {
    match content {
        None => Some(None),
        Some(c) => match parse_u64(trimmed(c)) {
            Some(e) => Some(Some(e)),
            None => None,
        },
    }
}

/// What `load` gives for a backend, the epoch the store holds in memory and
/// the text of the backing file; none stands for a failure. The file backend
/// reads the file only while it holds no epoch in memory: after a save in
/// this process, a load gives the saved epoch.
pub open spec fn load_outcome(
    backend: EpochStorageType,
    cached: Option<u64>,
    content: Option<Seq<char>>,
) -> Option<Option<u64>> {
    match backend {
        EpochStorageType::Memory => Some(cached),
        EpochStorageType::File => match cached {
            Some(e) => Some(Some(e)),
            None => loaded_from_file(content),
        },
    }
}

/// The text that the file backend writes for an epoch.
pub open spec fn saved_text(epoch: u64) -> Seq<char> {
    decimal(epoch as nat)
}

pub struct EpochState {
    storage_type: EpochStorageType,
    file_path: String,
    memory_epoch: Option<u64>,
}

impl EpochState {
    pub closed spec fn backend(&self) -> EpochStorageType {
        self.storage_type
    }

    pub closed spec fn path(&self) -> Seq<char> {
        self.file_path@
    }

    /// The epoch the store holds in memory.
    pub closed spec fn cached(&self) -> Option<u64> {
        self.memory_epoch
    }

    pub fn new(storage_type: EpochStorageType, file_path: String) -> (r: EpochState)
        ensures
            r.backend() == storage_type,
            r.path() == file_path@,
            r.cached() is None,
    {
        EpochState { storage_type, file_path, memory_epoch: None }
    }

    pub fn storage_type(&self) -> (r: EpochStorageType)
        ensures
            r == self.backend(),
    {
        self.storage_type
    }

    /// The path of the backing file.
    pub fn file_path(&self) -> (r: &str)
        ensures
            r@ == self.path(),
    {
        self.file_path.as_str()
    }

    /// The last cranked epoch. `file_content` is the text of the backing
    /// file, or none where it does not exist; it is read only by the file
    /// backend, and only while no epoch is held in memory. An epoch read from
    /// the file is also kept in memory.
    pub fn load(&mut self, file_content: Option<&str>) -> (r: Result<Option<u64>, CrankerError>)
        ensures
            final(self).backend() == old(self).backend(),
            final(self).path() == old(self).path(),
            match r {
                Ok(v) => load_outcome(
                    old(self).backend(),
                    old(self).cached(),
                    content_view(file_content),
                ) == Some(v),
                Err(e) => load_outcome(
                    old(self).backend(),
                    old(self).cached(),
                    content_view(file_content),
                ) is None && e is Parse,
            },
            final(self).cached() == match r {
                Ok(Some(e)) => Some(e),
                _ => old(self).cached(),
            },
    {
        match self.storage_type {
            EpochStorageType::Memory => Ok(self.memory_epoch),
            EpochStorageType::File if self.memory_epoch.is_some() => Ok(self.memory_epoch),
            EpochStorageType::File => match file_content {
                None => Ok(None),
                Some(c) => {
                    let t = trim_chars(c);
                    match parse_u64_chars(&t) {
                        Some(e) => {
                            self.memory_epoch = Some(e);
                            Ok(Some(e))
                        },
                        None => {
                            let mut msg = String::from_str("Invalid epoch in state file '");
                            msg.append(self.file_path.as_str());
                            msg.append("'");
                            Err(CrankerError::Parse(msg))
                        },
                    }
                },
            },
        }
    }

    /// Records `epoch` in memory. For the file backend, returns the text that
    /// the backing file must now hold; the memory backend returns none.
    pub fn save(&mut self, epoch: u64) -> (r: Option<String>)
        ensures
            final(self).backend() == old(self).backend(),
            final(self).path() == old(self).path(),
            final(self).cached() == Some(epoch),
            match old(self).backend() {
                EpochStorageType::Memory => r is None,
                EpochStorageType::File => r is Some && r->Some_0@ == saved_text(epoch),
            },
    {
        self.memory_epoch = Some(epoch);
        match self.storage_type {
            EpochStorageType::Memory => None,
            EpochStorageType::File => Some(decimal_string(epoch)),
        }
    }
}

/// Saving an epoch to the file backend and loading it back gives that
/// epoch: in a fresh store over the same file, and in the store that saved
/// it, whatever the file then holds.
pub proof fn lemma_file_round_trip(epoch: u64, content: Option<Seq<char>>)
    ensures
        load_outcome(EpochStorageType::File, None, Some(saved_text(epoch))) == Some(Some(epoch)),
        load_outcome(EpochStorageType::File, Some(epoch), content) == Some(Some(epoch)),
{
    lemma_decimal_round_trip(epoch);
}

/// The memory backend gives back the epoch last saved to it, and nothing
/// before any save, whatever a file holds.
pub proof fn lemma_memory_round_trip(epoch: u64, content: Option<Seq<char>>)
    ensures
        load_outcome(EpochStorageType::Memory, Some(epoch), content) == Some(Some(epoch)),
        load_outcome(EpochStorageType::Memory, None, content) == Some(None::<u64>),
{
}

} // verus!
