//! The front end's session store.
use vstd::prelude::*;
use vstd::std_specs::cmp::PartialEqSpec;

verus! {

/// The credentials and token the front end keeps between pages.
#[derive(Debug)]
pub struct YewduxStore {
    pub username: String,
    pub password: String,
    pub token: String,
}

impl Default for YewduxStore {
    /// An empty store: no user, no password, no token.
    fn default() -> (s: Self)
        ensures
            s.username@ == Seq::<char>::empty(),
            s.password@ == Seq::<char>::empty(),
            s.token@ == Seq::<char>::empty(),
    {
        YewduxStore { username: String::new(), password: String::new(), token: String::new() }
    }
}

impl Clone for YewduxStore {
    /// A copy with the same user, password and token.
    fn clone(&self) -> (s: Self)
        ensures
            s.username@ == self.username@,
            s.password@ == self.password@,
            s.token@ == self.token@,
    {
        YewduxStore {
            username: self.username.clone(),
            password: self.password.clone(),
            token: self.token.clone(),
        }
    }
}

impl PartialEq for YewduxStore {
    fn eq(&self, other: &Self) -> (same: bool) {
        self.username == other.username && self.password == other.password && self.token
            == other.token
    }
}

impl vstd::std_specs::cmp::PartialEqSpecImpl for YewduxStore {
    open spec fn obeys_eq_spec() -> bool {
        true
    }

    open spec fn eq_spec(&self, other: &Self) -> bool {
        &&& self.username@ == other.username@
        &&& self.password@ == other.password@
        &&& self.token@ == other.token@
    }
}

impl Eq for YewduxStore {

}

/// Law: two stores are equal exactly when they hold the same user, the same
/// password and the same token; a store differing in any one of them is
/// unequal.
pub proof fn law_equal_stores_agree_on_every_field(a: YewduxStore, b: YewduxStore)
    ensures
        a.eq_spec(&b) <==> (a.username@ == b.username@ && a.password@ == b.password@
            && a.token@ == b.token@),
        a.password@ != b.password@ ==> !a.eq_spec(&b),
        a.username@ != b.username@ ==> !a.eq_spec(&b),
        a.token@ != b.token@ ==> !a.eq_spec(&b),
{
}

} // verus!
