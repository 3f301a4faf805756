//! The pipeline-cache blob and the store path it was built for. A blob
//! belongs to one store path: when the path changes, the blob is dropped.
//! Reading and writing the files is the caller's.
use vstd::prelude::*;
use crate::text::{str_trim, trimmed};
use crate::chars::{char_vec, chars_equal};

verus! {

/// What the files on disk said when the cache was loaded.
#[derive(PartialEq, Eq, Structural, Clone, Copy, Debug)]
pub enum ShaderLoad {
    /// The stored path matched and the blob was read.
    Loaded,
    /// The stored path differs: the cache was invalidated (the caller
    /// deletes both files).
    Invalidated,
    /// Nothing usable on disk; the cache starts empty.
    Fresh,
}

pub struct ShaderCache {
    current_store_path: String,
    blob: Vec<u8>,
    blob_size: usize,
}

impl ShaderCache {
    pub closed spec fn store_path(&self) -> Seq<char> {
        self.current_store_path@
    }

    pub closed spec fn bytes(&self) -> Seq<u8> {
        self.blob@
    }

    /// The size recorded at the last load or save.
    pub closed spec fn recorded_size(&self) -> usize {
        self.blob_size
    }

    pub fn new(current_store_path: &str) -> (c: Self)
        ensures
            c.store_path() == current_store_path@,
            c.bytes().len() == 0,
            c.recorded_size() == 0,
    {
        ShaderCache { current_store_path: current_store_path.to_owned(), blob: Vec::new(), blob_size: 0 }
    }

    /// Takes what was read from disk: the stored path file's text and the
    /// blob file's bytes (each `None` when unreadable).
    pub fn load(&mut self, stored_path: Option<&str>, data: Option<Vec<u8>>) -> (r: ShaderLoad)
        ensures
            final(self).store_path() == old(self).store_path(),
            match stored_path {
                Some(p) => if trimmed(p@) == trimmed(old(self).store_path()) {
                    match data {
                        Some(d) => {
                            &&& r == ShaderLoad::Loaded
                            &&& final(self).bytes() == d@
                            &&& final(self).recorded_size() == d@.len()
                        },
                        None => r == ShaderLoad::Fresh && *final(self) == *old(self),
                    }
                } else {
                    &&& r == ShaderLoad::Invalidated
                    &&& final(self).bytes().len() == 0
                    &&& final(self).recorded_size() == 0
                },
                None => r == ShaderLoad::Fresh && *final(self) == *old(self),
            },
    {
        match stored_path {
            Some(p) => {
                let stored = char_vec(str_trim(p));
                let current = char_vec(str_trim(self.current_store_path.as_str()));
                if chars_equal(&stored, &current) {
                    match data {
                        Some(d) => {
                            self.blob_size = d.len();
                            self.blob = d;
                            ShaderLoad::Loaded
                        },
                        None => ShaderLoad::Fresh,
                    }
                } else {
                    self.invalidate();
                    ShaderLoad::Invalidated
                }
            },
            None => ShaderLoad::Fresh,
        }
    }

    /// Drops the blob (the caller deletes the blob and stored path files).
    pub fn invalidate(&mut self)
        ensures
            final(self).store_path() == old(self).store_path(),
            final(self).bytes().len() == 0,
            final(self).recorded_size() == 0,
    {
        self.blob.clear();
        self.blob_size = 0;
    }

    /// A new store path invalidates the cache; true when it changed.
    pub fn update_store_path(&mut self, new_path: &str) -> (changed: bool)
        ensures
            changed == (old(self).store_path() != new_path@),
            final(self).store_path() == new_path@,
            changed ==> final(self).bytes().len() == 0 && final(self).recorded_size() == 0,
            !changed ==> *final(self) == *old(self),
    {
        let current = char_vec(self.current_store_path.as_str());
        let wanted = char_vec(new_path);
        if !chars_equal(&current, &wanted) {
            self.current_store_path = new_path.to_owned();
            self.invalidate();
            return true;
        }
        false
    }

    /// The blob to write; an empty one is not saved.
    pub fn blob(&self) -> (b: &[u8])
        ensures
            b@ == self.bytes(),
    {
        self.blob.as_slice()
    }

    /// The blob was written to disk: its size is recorded.
    pub fn mark_saved(&mut self)
        ensures
            final(self).store_path() == old(self).store_path(),
            final(self).bytes() == old(self).bytes(),
            final(self).recorded_size() == old(self).bytes().len(),
    {
        self.blob_size = self.blob.len();
    }

    pub fn byte_size(&self) -> (n: usize)
        ensures
            n == self.recorded_size(),
    {
        self.blob_size
    }

    pub fn is_empty(&self) -> (b: bool)
        ensures
            b == (self.bytes().len() == 0),
    {
        self.blob.len() == 0
    }
}

} // verus!
