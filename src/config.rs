//! The guard's fixed configuration: accepted audiences and authorized identities.
use vstd::prelude::*;

verus! {

/// The text of each string of a sequence.
pub open spec fn strings_view(v: Seq<String>) -> Seq<Seq<char>> {
    v.map_values(|s: String| s@)
}

/// What a configuration holds: the audiences passed on with every review, in
/// order, and the usernames that may pass once reviewed.
pub ghost struct ConfigView {
    pub audiences: Seq<Seq<char>>,
    pub identities: Seq<Seq<char>>,
}

/// The guard's configuration. It is built once and only read afterwards.
#[derive(Clone, Debug)]
pub struct Config {
    audiences: Vec<String>,
    identities: Vec<String>,
}

impl View for Config {
    type V = ConfigView;

    closed spec fn view(&self) -> ConfigView {
        ConfigView {
            audiences: strings_view(self.audiences@),
            identities: strings_view(self.identities@),
        }
    }
}

impl Config {
    /// A configuration with the given audiences and authorized usernames.
    /// Either list may be empty; an empty list of usernames denies every
    /// caller that is not on the local host.
    pub fn new(audiences: Vec<String>, identities: Vec<String>) -> (r: Config)
        ensures
            r@.audiences == strings_view(audiences@),
            r@.identities == strings_view(identities@),
    {
        Config { audiences, identities }
    }

    /// The audiences, in the order given.
    pub fn audiences(&self) -> (r: &Vec<String>)
        ensures
            strings_view(r@) == self@.audiences,
    {
        &self.audiences
    }

    /// The authorized usernames, in the order given.
    pub fn identities(&self) -> (r: &Vec<String>)
        ensures
            strings_view(r@) == self@.identities,
    {
        &self.identities
    }

    /// Whether `username` is one of the authorized usernames.
    pub fn is_authorized(&self, username: &String) -> (r: bool)
        ensures
            r == self@.identities.contains(username@),
    {
        let ids = &self.identities;
        let mut i: usize = 0;
        while i < ids.len()
            invariant
                0 <= i <= ids.len(),
                strings_view(ids@) == self@.identities,
                forall|j: int| 0 <= j < i ==> ids@[j]@ != username@,
            decreases ids.len() - i,
        {
            if ids[i] == *username {
                assert(self@.identities[i as int] == username@);
                return true;
            }
            i = i + 1;
        }
        proof {
            assert forall|j: int| 0 <= j < self@.identities.len() implies self@.identities[j]
                != username@ by {
                assert(self@.identities[j] == ids@[j]@);
            }
        }
        false
    }
}

} // verus!
