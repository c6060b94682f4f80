//! Credentials, token claims, permission kinds and the identity a request
//! acts under.

use crate::model::permission_set::PermissionSet;
use crate::util::text::same_text;
use vstd::prelude::*;

verus! {

/// What a caller sends to log in.
#[derive(Debug, PartialEq, Eq)]
pub struct LoginDto {
    pub email: String,
    pub password: String,
}

/// What a successful login hands back.
#[derive(Debug, PartialEq, Eq)]
pub struct AuthCredentialDto {
    pub access_token: String,
}

/// The identity a request acts under: who it is and what it may do. It is
/// built anew for every request and never stored.
#[derive(Debug)]
pub struct AuthInfo {
    pub user_id: i32,
    pub email: String,
    pub permissions: PermissionSet,
}

/// An identity as contracts speak of it.
pub struct Identity {
    pub user_id: i32,
    pub email: Seq<char>,
    pub permissions: Set<PermissionType>,
}

impl View for AuthInfo {
    type V = Identity;

    open spec fn view(&self) -> Identity {
        Identity { user_id: self.user_id, email: self.email@, permissions: self.permissions@ }
    }
}

impl Clone for AuthInfo {
    fn clone(&self) -> (copy: AuthInfo)
        ensures
            copy@ == self@,
    {
        AuthInfo {
            user_id: self.user_id,
            email: self.email.clone(),
            permissions: self.permissions.clone(),
        }
    }
}

/// What a signed token states: the subject, the e-mail address it was issued
/// for, and the seconds since the epoch at which it was issued and expires.
#[derive(Debug, PartialEq, Eq)]
pub struct TokenClaims {
    pub sub: i32,
    pub email: String,
    pub iat: i64,
    pub exp: i64,
}

/// Token claims as contracts speak of them.
pub struct Claims {
    pub sub: i32,
    pub email: Seq<char>,
    pub iat: i64,
    pub exp: i64,
}

impl View for TokenClaims {
    type V = Claims;

    open spec fn view(&self) -> Claims {
        Claims { sub: self.sub, email: self.email@, iat: self.iat, exp: self.exp }
    }
}

impl Clone for TokenClaims {
    fn clone(&self) -> (copy: TokenClaims)
        ensures
            copy@ == self@,
    {
        TokenClaims { sub: self.sub, email: self.email.clone(), iat: self.iat, exp: self.exp }
    }
}

impl Clone for LoginDto {
    fn clone(&self) -> (copy: LoginDto)
        ensures
            copy.email@ == self.email@,
            copy.password@ == self.password@,
    {
        LoginDto { email: self.email.clone(), password: self.password.clone() }
    }
}

impl Clone for AuthCredentialDto {
    fn clone(&self) -> (copy: AuthCredentialDto)
        ensures
            copy.access_token@ == self.access_token@,
    {
        AuthCredentialDto { access_token: self.access_token.clone() }
    }
}

/// One capability a route can ask for. `Unknown` stands for every permission
/// name that the catalog does not list; it is never granted to anyone.
#[derive(Clone, Copy, Debug, PartialEq, Eq, Hash, Structural)]
pub enum PermissionType {
    CreateUser,
    ReadUser,
    UpdateUser,
    DeleteUser,
    Unknown,
}

impl PermissionType {
    /// The name under which a kind is stored and sent.
    pub open spec fn name(self) -> Seq<char> {
        match self {
            PermissionType::CreateUser => "user.create"@,
            PermissionType::ReadUser => "user.read"@,
            PermissionType::UpdateUser => "user.update"@,
            PermissionType::DeleteUser => "user.delete"@,
            PermissionType::Unknown => "unknown"@,
        }
    }

    /// The kind that a stored name stands for: one of the four assignable
    /// kinds for their exact names, `Unknown` for every other text.
    pub open spec fn parse(text: Seq<char>) -> PermissionType {
        if text == "user.create"@ {
            PermissionType::CreateUser
        } else if text == "user.read"@ {
            PermissionType::ReadUser
        } else if text == "user.update"@ {
            PermissionType::UpdateUser
        } else if text == "user.delete"@ {
            PermissionType::DeleteUser
        } else {
            PermissionType::Unknown
        }
    }

    /// Whether a kind can be given to an account, that is, whether it is not
    /// the `Unknown` sentinel.
    pub open spec fn assignable(self) -> bool {
        self != PermissionType::Unknown
    }

    /// The assignable kinds, in catalog order.
    pub open spec fn catalog() -> Seq<PermissionType> {
        seq![
            PermissionType::CreateUser,
            PermissionType::ReadUser,
            PermissionType::UpdateUser,
            PermissionType::DeleteUser,
        ]
    }

    pub fn as_str(&self) -> (text: &'static str)
        ensures
            text@ == self.name(),
    {
        match self {
            PermissionType::CreateUser => "user.create",
            PermissionType::ReadUser => "user.read",
            PermissionType::UpdateUser => "user.update",
            PermissionType::DeleteUser => "user.delete",
            PermissionType::Unknown => "unknown",
        }
    }

    /// Whether this kind is one of the four that can be assigned.
    pub fn is_assignable(&self) -> (yes: bool)
        ensures
            yes == self.assignable(),
    {
        !matches!(self, PermissionType::Unknown)
    }

    /// The assignable kinds, in catalog order: what the root identity holds.
    pub fn variants() -> (all: Vec<PermissionType>)
        ensures
            all@ == PermissionType::catalog(),
    {
        let mut all: Vec<PermissionType> = Vec::new();
        all.push(PermissionType::CreateUser);
        all.push(PermissionType::ReadUser);
        all.push(PermissionType::UpdateUser);
        all.push(PermissionType::DeleteUser);
        all
    }

    /// The names of the five kinds differ pairwise.
    pub proof fn lemma_names_differ()
        ensures
            forall|a: PermissionType, b: PermissionType| a.name() == b.name() ==> a == b,
    {
        reveal_strlit("user.create");
        reveal_strlit("user.read");
        reveal_strlit("user.update");
        reveal_strlit("user.delete");
        reveal_strlit("unknown");
        assert forall|a: PermissionType, b: PermissionType| a.name() == b.name() implies a
            == b by {
            if a != b {
                assert(a.name().len() != b.name().len() || a.name()[5] != b.name()[5]);
            }
        }
    }

    /// Reading back the name of an assignable kind gives that kind.
    pub proof fn lemma_parse_name(kind: PermissionType)
        requires
            kind.assignable(),
        ensures
            PermissionType::parse(kind.name()) == kind,
    {
        PermissionType::lemma_names_differ();
        assert(PermissionType::CreateUser.name() == "user.create"@);
        assert(PermissionType::ReadUser.name() == "user.read"@);
        assert(PermissionType::UpdateUser.name() == "user.update"@);
    }

    /// A text that is the name of no assignable kind reads as `Unknown`, and
    /// a text reads as an assignable kind only if it is that kind's name.
    pub proof fn lemma_parse_total(text: Seq<char>)
        ensures
            PermissionType::parse(text).assignable() ==> PermissionType::parse(text).name()
                == text,
            (forall|kind: PermissionType| kind.assignable() ==> kind.name() != text)
                ==> PermissionType::parse(text) == PermissionType::Unknown,
    {
        assert(PermissionType::ReadUser.name() == "user.read"@);
        assert(PermissionType::UpdateUser.name() == "user.update"@);
        assert(PermissionType::DeleteUser.name() == "user.delete"@);
    }
}

impl From<String> for PermissionType {
    fn from(value: String) -> (kind: PermissionType) {
        let text = value.as_str();
        if same_text(text, "user.create") {
            PermissionType::CreateUser
        } else if same_text(text, "user.read") {
            PermissionType::ReadUser
        } else if same_text(text, "user.update") {
            PermissionType::UpdateUser
        } else if same_text(text, "user.delete") {
            PermissionType::DeleteUser
        } else {
            PermissionType::Unknown
        }
    }
}

impl vstd::std_specs::convert::FromSpecImpl<String> for PermissionType {
    open spec fn obeys_from_spec() -> bool {
        true
    }

    open spec fn from_spec(value: String) -> PermissionType {
        PermissionType::parse(value@)
    }
}

} // verus!
