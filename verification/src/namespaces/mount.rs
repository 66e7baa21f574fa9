use vstd::prelude::*;
use vstd::string::*;
use crate::store::Store;
use crate::namespaces::net::{path_exists, path_is_file};

verus! {

/// A named mount namespace the runtime keeps alive by a bind mount.
#[allow(non_camel_case_types)]
pub struct mount {
    pub name: String,
}

impl View for mount {
    type V = Seq<char>;

    open spec fn view(&self) -> Seq<char> {
        self.name@
    }
}

impl Clone for mount {
    fn clone(&self) -> (r: Self)
        ensures
            r@ == self@,
    {
        mount { name: self.name.clone() }
    }
}

/// The file a mount namespace called `name` is bind-mounted on; it is also
/// the new root the namespace pivots to.
pub open spec fn mount_bind_path(name: Seq<char>) -> Seq<char> {
    seq!['d', 'c', '_', 'n', 's', '/', 'm', 'o', 'u', 'n', 't', '/'] + name
}

/// Where the old root goes when the namespace pivots to its new root.
pub open spec fn mount_old_root_path(name: Seq<char>) -> Seq<char> {
    mount_bind_path(name) + seq!['/', 'o', 'l', 'd', '_', 'r', 'o', 'o', 't']
}

#[allow(non_snake_case)]
impl mount {
    /// The record of the mount namespace called `name`.
    pub fn named(name: &str) -> (r: mount)
        ensures
            r@ == name@,
    {
        mount { name: String::from_str(name) }
    }

    /// The file the namespace is bind-mounted on: `dc_ns/mount/` and its name.
    pub fn bind_path(&self) -> (r: String)
        ensures
            r@ == mount_bind_path(self@),
    {
        let r = String::from_str("dc_ns/mount/").concat(self.name.as_str());
        proof {
            reveal_strlit("dc_ns/mount/");
            assert(r@ =~= mount_bind_path(self@));
        }
        r
    }

    /// Where the old root goes when the namespace pivots to its new root.
    pub fn old_root_path(&self) -> (r: String)
        ensures
            r@ == mount_old_root_path(self@),
    {
        let r = self.bind_path().concat("/old_root");
        proof {
            reveal_strlit("/old_root");
            assert(r@ =~= mount_old_root_path(self@));
        }
        r
    }

    /// Whether something exists at `path`.
    pub fn verify_path(&self, path: &str) -> bool {
        path_exists(path)
    }

    /// Whether a regular file is at `path`.
    pub fn verify_file(&self, path: &str) -> bool {
        path_is_file(path)
    }

    /// Keeps this namespace under its name among `map`'s records, as the
    /// namespace file is updated when the namespace is created.
    pub fn record_into(&self, map: &mut Store<mount>)
        ensures
            final(map)@ == old(map)@.insert(self@, self@),
    {
        map.insert(self.name.clone(), self.clone());
    }

    /// Forgets the namespace called as this one among `map`'s records, as
    /// the namespace file is updated when the namespace is deleted.
    pub fn forget_in(&self, map: &mut Store<mount>)
        ensures
            final(map)@ == old(map)@.remove(self@),
    {
        map.remove(self.name.as_str());
    }
}

} // verus!
