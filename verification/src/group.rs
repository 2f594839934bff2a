//! A group of widgets inside a nine-slice border.

use vstd::prelude::*;

verus! {

/// What a bordered group is made from: the salt of its widget identity and
/// the path of its border texture.
pub struct Group<'a> {
    id_salt: &'a str,
    texture_file_path: &'a str,
}

impl<'a> Group<'a> {
    /// The text that tells this group from its siblings.
    pub closed spec fn spec_id_salt(self) -> Seq<char> {
        self.id_salt@
    }

    /// The path of the border texture.
    pub closed spec fn spec_texture_file_path(self) -> Seq<char> {
        self.texture_file_path@
    }

    pub fn new(id_salt: &'a str, texture_file_path: &'a str) -> (r: Self)
        ensures
            r.spec_id_salt() == id_salt@,
            r.spec_texture_file_path() == texture_file_path@,
    {
        Group { id_salt, texture_file_path }
    }

    pub fn id_salt(&self) -> (r: &'a str)
        ensures
            r@ == self.spec_id_salt(),
    {
        self.id_salt
    }

    pub fn texture_file_path(&self) -> (r: &'a str)
        ensures
            r@ == self.spec_texture_file_path(),
    {
        self.texture_file_path
    }
}

} // verus!
