//! The cache of source texts, by file name. The cache is a value that its
//! owner passes around; reading files is left to the owner.

use vstd::prelude::*;
use vstd::string::*;
use crate::name_map::NameMap;

verus! {

/// The source texts that were read or registered, by name.
pub struct FileCache {
    texts: NameMap<String>,
}

impl View for FileCache {
    type V = Map<Seq<char>, Seq<char>>;

    closed spec fn view(&self) -> Map<Seq<char>, Seq<char>> {
        self.texts@
    }
}

impl FileCache {
    /// A cache without texts.
    pub fn new() -> (out: Self)
        ensures
            out@ == Map::<Seq<char>, Seq<char>>::empty(),
    {
        FileCache { texts: NameMap::new() }
    }

    /// Keeps `text`, which was read from the file `file`, unless the cache
    /// already holds a text for that file. The text that the cache then
    /// holds for the file is handed back.
    pub fn import_file(&mut self, file: &String, text: String) -> (out: String)
        ensures
            old(self)@.contains_key(file@) ==> final(self)@ == old(self)@ && out@ == old(self)@[file@],
            !old(self)@.contains_key(file@) ==> final(self)@ == old(self)@.insert(file@, text@)
                && out@ == text@,
    {
        match self.texts.get(file) {
            Some(kept) => kept.clone(),
            None => {
                let out = text.clone();
                self.texts.insert(file.clone(), text);
                out
            },
        }
    }

    /// Keeps `input` under `name`, in place of what was kept under it.
    pub fn register_input(&mut self, name: &String, input: &str) -> (out: String)
        ensures
            final(self)@ == old(self)@.insert(name@, input@),
            out@ == input@,
    {
        let text = String::from_str(input);
        let out = text.clone();
        self.texts.insert(name.clone(), text);
        out
    }

    /// The text that is kept under `name`, if there is one.
    pub fn get_input(&self, name: &String) -> (out: Option<String>)
        ensures
            match out {
                Some(text) => self@.contains_key(name@) && text@ == self@[name@],
                None => !self@.contains_key(name@),
            },
    {
        match self.texts.get(name) {
            Some(text) => Some(text.clone()),
            None => None,
        }
    }
}

} // verus!
