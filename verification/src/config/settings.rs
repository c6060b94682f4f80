//! The settings of a deployment, read from a snapshot of its environment.
//! Every setting names the variable it comes from; some fall back to a
//! default when the variable is not set.

use crate::util::text::{parse_decimal, parse_number, same_text};
use vstd::prelude::*;

verus! {

/// The value that a list of variables gives a name: that of the first
/// entry under that name.
pub open spec fn first_value(vars: Seq<(Seq<char>, Seq<char>)>, name: Seq<char>) -> Option<
    Seq<char>,
>
    decreases vars.len(),
{
    if vars.len() == 0 {
        None
    } else if vars[0].0 == name {
        Some(vars[0].1)
    } else {
        first_value(vars.drop_first(), name)
    }
}

/// A snapshot of the variables a process was started with.
#[derive(Debug)]
pub struct Environment {
    vars: Vec<(String, String)>,
}

impl Environment {
    /// The variables of the snapshot, as pairs of name and value.
    pub closed spec fn vars(&self) -> Seq<(Seq<char>, Seq<char>)> {
        self.vars@.map_values(|pair: (String, String)| (pair.0@, pair.1@))
    }

    /// The value of a variable, if the snapshot defines it.
    pub open spec fn value(&self, name: Seq<char>) -> Option<Seq<char>> {
        first_value(self.vars(), name)
    }

    /// The number that a variable writes, or `default` where it is not set.
    /// `None` where it is set to something that is no number up to `max`.
    pub open spec fn number(&self, name: Seq<char>, default: nat, max: nat) -> Option<nat> {
        match self.value(name) {
            Some(text) => parse_decimal(text, max),
            None => Some(default),
        }
    }

    /// A snapshot of the given pairs of name and value.
    pub fn new(vars: Vec<(String, String)>) -> (env: Environment)
        ensures
            env.vars() == vars@.map_values(|pair: (String, String)| (pair.0@, pair.1@)),
    {
        Environment { vars }
    }

    /// The value of a variable, if the snapshot defines it.
    pub fn get(&self, param_name: &str) -> (value: Option<String>)
        ensures
            match value {
                Some(text) => self.value(param_name@) == Some(text@),
                None => self.value(param_name@) is None,
            },
    {
        let ghost all = self.vars();
        let mut i: usize = 0;
        assert(all.skip(0) =~= all);
        while i < self.vars.len()
            invariant
                i <= self.vars@.len(),
                all == self.vars(),
                first_value(all, param_name@) == first_value(all.skip(i as int), param_name@),
            decreases self.vars@.len() - i,
        {
            let ghost rest = all.skip(i as int);
            assert(rest.drop_first() =~= all.skip(i + 1));
            if same_text(self.vars[i].0.as_str(), param_name) {
                return Some(self.vars[i].1.clone());
            }
            i += 1;
        }
        None
    }

    /// The value of a variable, or `default` where the snapshot does not
    /// define it.
    pub fn get_or_default(&self, param_name: &str, default: String) -> (value: String)
        ensures
            value@ == match self.value(param_name@) {
                Some(text) => text,
                None => default@,
            },
    {
        match self.get(param_name) {
            Some(text) => text,
            None => default,
        }
    }

    /// The number that a variable writes, or `default` where it is not set.
    pub fn get_number(&self, param_name: &str, default: u64, max: u64) -> (number: Option<u64>)
        ensures
            number == match self.number(param_name@, default as nat, max as nat) {
                Some(value) => Some(value as u64),
                None => None::<u64>,
            },
    {
        match self.get(param_name) {
            Some(text) => parse_number(text.as_str(), max),
            None => Some(default),
        }
    }
}

/// The e-mail address of the root account: `APP_ROOT_USER`.
pub fn root_user(env: &Environment) -> (value: String)
    requires
        env.value("APP_ROOT_USER"@) is Some,
    ensures
        env.value("APP_ROOT_USER"@) == Some(value@),
{
    env.get("APP_ROOT_USER").unwrap()
}

/// The password of the root account, in the clear: `APP_ROOT_PASSWORD`.
pub fn root_password(env: &Environment) -> (value: String)
    requires
        env.value("APP_ROOT_PASSWORD"@) is Some,
    ensures
        env.value("APP_ROOT_PASSWORD"@) == Some(value@),
{
    env.get("APP_ROOT_PASSWORD").unwrap()
}

/// The port the service listens on: `APP_PORT`, or 3000.
pub fn api_port(env: &Environment) -> (port: u16)
    requires
        env.number("APP_PORT"@, 3000, 65535) is Some,
    ensures
        env.number("APP_PORT"@, 3000, 65535) == Some(port as nat),
{
    let number: u64 = env.get_number("APP_PORT", 3000, 65535).unwrap();
    number as u16
}

/// The host of the database: `PG_DATABASE_HOST`.
pub fn pg_database_host(env: &Environment) -> (value: String)
    requires
        env.value("PG_DATABASE_HOST"@) is Some,
    ensures
        env.value("PG_DATABASE_HOST"@) == Some(value@),
{
    env.get("PG_DATABASE_HOST").unwrap()
}

/// The port of the database: `PG_DATABASE_PORT`, which has no default.
pub fn pg_database_port(env: &Environment) -> (port: u16)
    requires
        env.value("PG_DATABASE_PORT"@) is Some,
        env.number("PG_DATABASE_PORT"@, 0, 65535) is Some,
    ensures
        env.number("PG_DATABASE_PORT"@, 0, 65535) == Some(port as nat),
{
    let number: u64 = env.get_number("PG_DATABASE_PORT", 0, 65535).unwrap();
    number as u16
}

/// The name of the database: `PG_DATABASE_DB`.
pub fn pg_database_db(env: &Environment) -> (value: String)
    requires
        env.value("PG_DATABASE_DB"@) is Some,
    ensures
        env.value("PG_DATABASE_DB"@) == Some(value@),
{
    env.get("PG_DATABASE_DB").unwrap()
}

/// The user the service connects to the database as:
/// `PG_DATABASE_USERNAME`.
pub fn pg_database_username(env: &Environment) -> (value: String)
    requires
        env.value("PG_DATABASE_USERNAME"@) is Some,
    ensures
        env.value("PG_DATABASE_USERNAME"@) == Some(value@),
{
    env.get("PG_DATABASE_USERNAME").unwrap()
}

/// The password of that user, if one is set: `PG_DATABASE_PASSWORD`.
pub fn pg_database_password(env: &Environment) -> (value: Option<String>)
    ensures
        match value {
            Some(text) => env.value("PG_DATABASE_PASSWORD"@) == Some(text@),
            None => env.value("PG_DATABASE_PASSWORD"@) is None,
        },
{
    env.get("PG_DATABASE_PASSWORD")
}

/// The secret that tokens are signed with: `JWT_SECRET`.
pub fn jwt_secret(env: &Environment) -> (value: String)
    requires
        env.value("JWT_SECRET"@) is Some,
    ensures
        env.value("JWT_SECRET"@) == Some(value@),
{
    env.get("JWT_SECRET").unwrap()
}

/// For how many seconds a token is valid: `JWT_EXPIRE_DURATION`, or 3600.
pub fn jwt_expire_duration(env: &Environment) -> (seconds: u64)
    requires
        env.number("JWT_EXPIRE_DURATION"@, 3600, u64::MAX as nat) is Some,
    ensures
        env.number("JWT_EXPIRE_DURATION"@, 3600, u64::MAX as nat) == Some(seconds as nat),
{
    env.get_number("JWT_EXPIRE_DURATION", 3600, u64::MAX).unwrap()
}

/// The cost that passwords are hashed with: `JWT_HASH_COST`, or 4.
pub fn jwt_hash_cost(env: &Environment) -> (cost: u32)
    requires
        env.number("JWT_HASH_COST"@, 4, u32::MAX as nat) is Some,
    ensures
        env.number("JWT_HASH_COST"@, 4, u32::MAX as nat) == Some(cost as nat),
{
    let number: u64 = env.get_number("JWT_HASH_COST", 4, 0xffff_ffff).unwrap();
    number as u32
}

} // verus!
