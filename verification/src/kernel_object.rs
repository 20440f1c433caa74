//! Objects a thread can hold handles to: open files and the console.
use vstd::prelude::*;
use crate::fat32::DirectoryEntry;

verus! {

/// A thread's name for one of its objects.
pub type ObjectHandle = u64;

/// An open file: its directory entry.
#[derive(Copy, Clone, Debug)]
pub struct FileObject {
    pub fat_entry: DirectoryEntry,
}

impl FileObject {
    /// The open file with the given directory entry.
    pub fn from_entry(fat_entry: DirectoryEntry) -> (r: Self)
        ensures
            r.fat_entry == fat_entry,
    {
        FileObject { fat_entry }
    }
}

/// The console.
#[derive(Copy, Clone, Debug)]
pub struct Stdio {}

impl Stdio {
    pub fn new() -> (r: Self) {
        Stdio {  }
    }
}

/// An object a thread holds.
#[derive(Copy, Clone, Debug)]
pub enum KernelObject {
    File(FileObject),
    Console(Stdio),
}

} // verus!
