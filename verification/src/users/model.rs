//! Users and their rights.

use vstd::prelude::*;
use vstd::string::*;

verus! {

/// What a user may do, from least to most: an account whose e-mail address
/// is not verified yet, an ordinary user, a member, a maintainer and the
/// administrator. The rights are ordered in that order.
#[derive(Clone, Copy, Debug, PartialEq, Eq, Structural, PartialOrd, Ord, Hash)]
pub enum UserRights {
    Unauthenticated,
    Normal,
    Member,
    Maintainer,
    Admin,
}

/// The name under which the rights are known to the API.
pub type Rights = UserRights;

impl UserRights {
    /// Position of the rights in their order.
    pub open spec fn level(self) -> int {
        match self {
            UserRights::Unauthenticated => 0,
            UserRights::Normal => 1,
            UserRights::Member => 2,
            UserRights::Maintainer => 3,
            UserRights::Admin => 4,
        }
    }

    /// The name of the rights as stored in the database and written in JSON.
    pub open spec fn spec_name(self) -> Seq<char> {
        match self {
            UserRights::Unauthenticated => "unauthenticated"@,
            UserRights::Normal => "normal"@,
            UserRights::Member => "member"@,
            UserRights::Maintainer => "maintainer"@,
            UserRights::Admin => "admin"@,
        }
    }

    pub fn rank(&self) -> (r: u8)
        ensures
            r == self.level(),
    {
        match self {
            UserRights::Unauthenticated => 0,
            UserRights::Normal => 1,
            UserRights::Member => 2,
            UserRights::Maintainer => 3,
            UserRights::Admin => 4,
        }
    }

    /// `self >= other` in the order of rights.
    pub fn at_least(&self, other: UserRights) -> (b: bool)
        ensures
            b == (self.level() >= other.level()),
    {
        self.rank() >= other.rank()
    }

    pub fn name(&self) -> (s: &'static str)
        ensures
            s@ == self.spec_name(),
    {
        match self {
            UserRights::Unauthenticated => "unauthenticated",
            UserRights::Normal => "normal",
            UserRights::Member => "member",
            UserRights::Maintainer => "maintainer",
            UserRights::Admin => "admin",
        }
    }
}

/// Rights are equal exactly when their levels are.
pub proof fn lemma_level_injective(a: UserRights, b: UserRights)
    ensures
        a.level() == b.level() <==> a == b,
{
}

/// The name of each of the rights is its serde `snake_case` name, and
/// different rights have different names, so a name read back gives the
/// rights it was written for.
pub proof fn lemma_rights_names(a: UserRights, b: UserRights)
    ensures
        UserRights::Unauthenticated.spec_name() == "unauthenticated"@,
        UserRights::Normal.spec_name() == "normal"@,
        UserRights::Member.spec_name() == "member"@,
        UserRights::Maintainer.spec_name() == "maintainer"@,
        UserRights::Admin.spec_name() == "admin"@,
        a.spec_name() == b.spec_name() ==> a == b,
{
    reveal_strlit("unauthenticated");
    reveal_strlit("normal");
    reveal_strlit("member");
    reveal_strlit("maintainer");
    reveal_strlit("admin");
    if a.spec_name() == b.spec_name() && a != b {
        let x = a.spec_name();
        let y = b.spec_name();
        assert(x.len() == y.len());
        assert(x[0] == y[0]);
        assert(x[1] == y[1]);
    }
}

/// A user as the API shows it.
#[derive(Clone, Debug)]
pub struct User {
    pub id: i32,
    pub name: String,
    pub nickname: Option<String>,
    pub email: Option<String>,
    pub rights: UserRights,
    pub has_profile_picture: bool,
}

impl User {
    pub fn id(&self) -> (r: i32)
        ensures
            r == self.id,
    {
        self.id
    }

    pub fn rights(&self) -> (r: UserRights)
        ensures
            r == self.rights,
    {
        self.rights
    }

    pub fn nickname(&self) -> (r: Option<&str>)
        ensures
            r matches Some(n) ==> (self.nickname matches Some(m) && n@ == m@),
            r is None ==> self.nickname is None,
    {
        match &self.nickname {
            Some(n) => Some(n.as_str()),
            None => None,
        }
    }

    pub fn email(&self) -> (r: Option<&str>)
        ensures
            r matches Some(e) ==> (self.email matches Some(m) && e@ == m@),
            r is None ==> self.email is None,
    {
        match &self.email {
            Some(e) => Some(e.as_str()),
            None => None,
        }
    }
}

} // verus!
