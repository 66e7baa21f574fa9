use vstd::prelude::*;
use vstd::string::*;
use crate::store::Store;

verus! {

/// A named network namespace the runtime keeps alive by a bind mount.
#[allow(non_camel_case_types)]
pub struct Net_ns {
    pub name: String,
}

impl View for Net_ns {
    type V = Seq<char>;

    open spec fn view(&self) -> Seq<char> {
        self.name@
    }
}

impl Clone for Net_ns {
    fn clone(&self) -> (r: Self)
        ensures
            r@ == self@,
    {
        Net_ns { name: self.name.clone() }
    }
}

/// The file a network namespace called `name` is bind-mounted on.
pub open spec fn net_bind_path(name: Seq<char>) -> Seq<char> {
    seq!['d', 'c', '_', 'n', 's', '/', 'n', 'e', 't', '/'] + name
}

/// Whether something exists at `path` (`Path::exists`); what is on disk decides.
#[verifier::external_body]
pub(crate) fn path_exists(path: &str) -> bool {
    std::path::Path::new(path).exists()
}

/// Whether a regular file is at `path` (`Path::is_file`); what is on disk decides.
#[verifier::external_body]
pub(crate) fn path_is_file(path: &str) -> bool {
    std::path::Path::new(path).is_file()
}

#[allow(non_snake_case)]
impl Net_ns {
    /// The record of the network namespace called `name`.
    pub fn named(name: &str) -> (r: Net_ns)
        ensures
            r@ == name@,
    {
        Net_ns { name: String::from_str(name) }
    }

    /// The file the namespace is bind-mounted on: `dc_ns/net/` and its name.
    pub fn bind_path(&self) -> (r: String)
        ensures
            r@ == net_bind_path(self@),
    {
        let r = String::from_str("dc_ns/net/").concat(self.name.as_str());
        proof {
            reveal_strlit("dc_ns/net/");
            assert(r@ =~= net_bind_path(self@));
        }
        r
    }

    /// Whether something exists at `path`.
    pub fn verify_path(&self, path: &str) -> bool {
        path_exists(path)
    }

    /// Whether a regular file is at `path`.
    pub fn verify_file(&self, path: &str) -> bool {
        path_is_file(path)
    }

    /// Keeps this namespace under its name among `map`'s records, as the
    /// namespace file is updated when the namespace is created.
    pub fn record_into(&self, map: &mut Store<Net_ns>)
        ensures
            final(map)@ == old(map)@.insert(self@, self@),
    {
        map.insert(self.name.clone(), self.clone());
    }

    /// Forgets the namespace called as this one among `map`'s records, as
    /// the namespace file is updated when the namespace is deleted.
    pub fn forget_in(&self, map: &mut Store<Net_ns>)
        ensures
            final(map)@ == old(map)@.remove(self@),
    {
        map.remove(self.name.as_str());
    }
}

} // verus!
