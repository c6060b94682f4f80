//! Authentication of a request by its bearer token, and the check of the
//! permissions a route asks for.

use crate::model::auth::{AuthInfo, Claims, PermissionType};
use crate::model::permission_set::PermissionSet;
use crate::service::auth_service::{AuthConfig, AuthServiceImpl, Resolution};
use crate::util::api_response::{Failure, ServiceError};
use crate::util::text::view_text;
use vstd::prelude::*;
use vstd::string::StrSliceExecFns;
use vstd::string::StringSliceAdditionalSpecFns;

verus! {

/// Whether a character may stand in the value of a header: a tab, or a
/// printable ASCII character.
pub open spec fn is_header_char(c: char) -> bool {
    c == '\t' || (' ' <= c <= '~')
}

/// Whether a text may be the value of a header.
pub open spec fn is_header_text(value: Seq<char>) -> bool {
    forall|i: int| 0 <= i < value.len() ==> is_header_char(#[trigger] value[i])
}

/// Whether a header value begins with the scheme `Bearer`, in any mix of
/// upper and lower case, and a space.
pub open spec fn names_bearer(value: Seq<char>) -> bool {
    &&& value.len() > 6
    &&& (value[0] == 'B' || value[0] == 'b')
    &&& (value[1] == 'E' || value[1] == 'e')
    &&& (value[2] == 'A' || value[2] == 'a')
    &&& (value[3] == 'R' || value[3] == 'r')
    &&& (value[4] == 'E' || value[4] == 'e')
    &&& (value[5] == 'R' || value[5] == 'r')
    &&& value[6] == ' '
}

/// A text without the spaces and tabs it begins with.
pub open spec fn without_leading_blanks(text: Seq<char>) -> Seq<char>
    decreases text.len(),
{
    if text.len() > 0 && (text[0] == ' ' || text[0] == '\t') {
        without_leading_blanks(text.drop_first())
    } else {
        text
    }
}

/// The token that a header value carries, if the value is a well-formed
/// bearer credential: what follows the scheme, the space and any further
/// blanks.
pub open spec fn bearer_credential(value: Seq<char>) -> Option<Seq<char>> {
    if is_header_text(value) && names_bearer(value) {
        Some(without_leading_blanks(value.skip(7)))
    } else {
        None
    }
}

/// The token a request presents, given the value of its `Authorization`
/// header, if it has one.
pub open spec fn presented(header: Option<Seq<char>>) -> Result<Seq<char>, Failure> {
    match header {
        None => Err(Failure::MissingAuthToken),
        Some(value) => match bearer_credential(value) {
            Some(token) => Ok(token),
            None => Err(Failure::InvalidAuthToken),
        },
    }
}

/// The claims under which a request with this header acts at `now`, before
/// any answer of the store.
pub open spec fn authenticated(config: AuthConfig, header: Option<Seq<char>>, now: u64) -> Result<
    Claims,
    Failure,
> {
    match presented(header) {
        Ok(token) => config.claims(token, now),
        Err(failure) => Err(failure),
    }
}

/// The first of the required kinds that a holder of `held` may not use, if
/// there is one.
pub open spec fn first_missing(held: Set<PermissionType>, required: Seq<PermissionType>) -> Option<
    PermissionType,
>
    decreases required.len(),
{
    if required.len() == 0 {
        None
    } else if !PermissionSet::allows(held, required[0]) {
        Some(required[0])
    } else {
        first_missing(held, required.drop_first())
    }
}

/// The permission guard passes exactly if every required kind is assignable
/// and held.
pub proof fn lemma_guard_passes_iff_all_held(
    held: Set<PermissionType>,
    required: Seq<PermissionType>,
)
    ensures
        first_missing(held, required) is None <==> forall|i: int|
            0 <= i < required.len() ==> PermissionSet::allows(held, #[trigger] required[i]),
        first_missing(held, required) matches Some(kind) ==> required.contains(kind)
            && !PermissionSet::allows(held, kind),
    decreases required.len(),
{
    if required.len() > 0 {
        let rest = required.drop_first();
        lemma_guard_passes_iff_all_held(held, rest);
        if PermissionSet::allows(held, required[0]) {
            if first_missing(held, rest) is None {
                assert forall|i: int| 0 <= i < required.len() implies PermissionSet::allows(
                    held,
                    #[trigger] required[i],
                ) by {
                    if i > 0 {
                        assert(required[i] == rest[i - 1]);
                    }
                }
            } else {
                let kind = first_missing(held, rest)->0;
                let at = choose|i: int| 0 <= i < rest.len() && rest[i] == kind;
                assert(required[at + 1] == kind);
            }
        }
    }
}

/// A permission name outside the catalog reads as `Unknown`, and an
/// identity that holds nothing but `Unknown` fails every guard that
/// requires anything, at the first kind required.
pub proof fn lemma_unknown_grants_nothing(text: Seq<char>, required: Seq<PermissionType>)
    requires
        forall|kind: PermissionType| kind.assignable() ==> kind.name() != text,
        required.len() > 0,
    ensures
        PermissionType::parse(text) == PermissionType::Unknown,
        PermissionSet::of_names(seq![text]) == set![PermissionType::Unknown],
        first_missing(set![PermissionType::Unknown], required) == Some(required[0]),
{
    PermissionType::lemma_parse_total(text);
    let kinds = seq![text].map_values(|name: Seq<char>| PermissionType::parse(name));
    assert(kinds.to_set() =~= set![PermissionType::Unknown]) by {
        assert(kinds[0] == PermissionType::Unknown);
    }
}

fn is_blank(byte: u8) -> (blank: bool)
    ensures
        blank == (byte == 32 || byte == 9),
{
    byte == 32u8 || byte == 9u8
}

/// The token that a request presents in its `Authorization` header.
pub fn bearer_token(header: Option<&str>) -> (token: Result<String, ServiceError>)
    ensures
        match token {
            Ok(text) => presented(view_text(header)) == Ok::<Seq<char>, Failure>(text@),
            Err(error) => presented(view_text(header)) == Err::<Seq<char>, Failure>(error@),
        },
{
    let value = match header {
        Some(value) => value,
        None => {
            return Err(ServiceError::MissingAuthToken);
        },
    };
    if !value.is_ascii() {
        proof {
            if is_header_text(value@) {
                assert forall|i: int| 0 <= i < value@.len() implies '\0' <= #[trigger] value@[i]
                    <= '\u{7f}' by {}
            }
        }
        return Err(ServiceError::InvalidAuthToken);
    }
    proof {
        vstd::string::is_ascii_spec_bytes(value);
    }
    let bytes = value.as_bytes();
    let len: usize = bytes.len();
    assert forall|i: int| 0 <= i < len implies bytes@[i] == #[trigger] value@[i] as u8 && '\0'
        <= value@[i] <= '\u{7f}' by {}
    let mut i: usize = 0;
    while i < len
        invariant
            i <= len,
            view_text(header) == Some(value@),
            len == value@.len(),
            len == bytes@.len(),
            forall|j: int|
                0 <= j < len ==> bytes@[j] == #[trigger] value@[j] as u8 && '\0' <= value@[j]
                    <= '\u{7f}',
            forall|j: int| 0 <= j < i ==> is_header_char(#[trigger] value@[j]),
        decreases len - i,
    {
        let byte: u8 = bytes[i];
        if !(byte == 9u8 || (32u8 <= byte && byte <= 126u8)) {
            assert(!is_header_char(value@[i as int]));
            return Err(ServiceError::InvalidAuthToken);
        }
        i += 1;
    }
    if len <= 6 {
        return Err(ServiceError::InvalidAuthToken);
    }
    let scheme = (bytes[0] == 66u8 || bytes[0] == 98u8) && (bytes[1] == 69u8 || bytes[1] == 101u8)
        && (bytes[2] == 65u8 || bytes[2] == 97u8) && (bytes[3] == 82u8 || bytes[3] == 114u8) && (
    bytes[4] == 69u8 || bytes[4] == 101u8) && (bytes[5] == 82u8 || bytes[5] == 114u8) && bytes[6]
        == 32u8;
    if !scheme {
        return Err(ServiceError::InvalidAuthToken);
    }
    let mut start: usize = 7;
    while start < len && is_blank(bytes[start])
        invariant
            7 <= start <= len,
            len == value@.len(),
            len == bytes@.len(),
            forall|j: int|
                0 <= j < len ==> bytes@[j] == #[trigger] value@[j] as u8 && '\0' <= value@[j]
                    <= '\u{7f}',
            without_leading_blanks(value@.skip(7)) == without_leading_blanks(
                value@.skip(start as int),
            ),
        decreases len - start,
    {
        proof {
            let rest = value@.skip(start as int);
            assert(rest.drop_first() =~= value@.skip(start + 1));
        }
        start += 1;
    }
    Ok(value.substring_ascii(start, len).to_owned())
}

/// The authentication guard: the token of the header, verified at `now`.
/// What comes back is the root's identity, or the claims for which the
/// store is to be asked; a request that fails here never reaches a route.
pub fn authorize(service: &AuthServiceImpl, header: Option<&str>, now: u64) -> (resolution: Result<
    Resolution,
    ServiceError,
>)
    ensures
        match resolution {
            Ok(Resolution::Resolved(identity)) => authenticated(
                service@,
                view_text(header),
                now,
            ) matches Ok(claims) && claims.sub == crate::util::constants::ROOT_USER_ID
                && identity@ == crate::service::auth_service::root_identity(claims.email),
            Ok(Resolution::Fetch(stated)) => authenticated(service@, view_text(header), now)
                == Ok::<Claims, Failure>(stated@) && stated.sub
                != crate::util::constants::ROOT_USER_ID,
            Err(error) => authenticated(service@, view_text(header), now) == Err::<
                Claims,
                Failure,
            >(error@),
        },
{
    match bearer_token(header) {
        Ok(auth_token) => service.extract_claims(auth_token.as_str(), now),
        Err(error) => Err(error),
    }
}

/// The permission guard of a route: every required kind must be held. The
/// failure names the first that is not.
pub fn permission_required(auth_info: &AuthInfo, required: &Vec<PermissionType>) -> (checked:
    Result<(), ServiceError>)
    ensures
        match first_missing(auth_info@.permissions, required@) {
            None => checked is Ok,
            Some(kind) => checked matches Err(error) && error@
                == Failure::MissingRequiredPermission(kind.name()),
        },
{
    let ghost held = auth_info@.permissions;
    let mut i: usize = 0;
    assert(required@.skip(0) =~= required@);
    while i < required.len()
        invariant
            i <= required@.len(),
            held == auth_info@.permissions,
            first_missing(held, required@) == first_missing(held, required@.skip(i as int)),
        decreases required@.len() - i,
    {
        let ghost rest = required@.skip(i as int);
        assert(rest.drop_first() =~= required@.skip(i + 1));
        if !auth_info.permissions.grants(required[i]) {
            return Err(
                ServiceError::MissingRequiredPermission(required[i].as_str().to_owned()),
            );
        }
        i += 1;
    }
    Ok(())
}

} // verus!
