//! Stored accounts and the shapes in which they are received and shown.

use crate::model::permission::{Permission, PermissionRow};
use vstd::prelude::*;

verus! {

/// An account as the store holds it, with the permissions assigned to it.
#[derive(Debug)]
pub struct User {
    pub id: i32,
    pub name: String,
    pub age: i32,
    pub email: String,
    /// The hash of the password.
    pub password: String,
    pub permissions: Vec<Permission>,
}

/// An account as contracts speak of it.
pub struct Account {
    pub id: i32,
    pub name: Seq<char>,
    pub age: i32,
    pub email: Seq<char>,
    pub password: Seq<char>,
    pub permissions: Seq<PermissionRow>,
}

impl View for User {
    type V = Account;

    open spec fn view(&self) -> Account {
        Account {
            id: self.id,
            name: self.name@,
            age: self.age,
            email: self.email@,
            password: self.password@,
            permissions: self.permissions@.map_values(|row: Permission| row@),
        }
    }
}

impl Account {
    /// The names of the permissions assigned to the account, in their order.
    pub open spec fn permission_names(self) -> Seq<Seq<char>> {
        self.permissions.map_values(|row: PermissionRow| row.name)
    }

    /// The account as it is shown: without the password, and with the
    /// permission names only where there are any.
    pub open spec fn shown(self) -> Profile {
        Profile {
            id: self.id,
            name: self.name,
            age: self.age,
            email: self.email,
            permissions: if self.permissions.len() == 0 {
                None
            } else {
                Some(self.permission_names())
            },
        }
    }
}

impl User {
    /// The names of the permissions assigned to the account, in their order.
    pub fn permission_names(&self) -> (names: Vec<String>)
        ensures
            names.deep_view() == self@.permission_names(),
    {
        let mut names: Vec<String> = Vec::new();
        let mut i: usize = 0;
        while i < self.permissions.len()
            invariant
                i <= self.permissions@.len(),
                names@.len() == i,
                forall|j: int| 0 <= j < i ==> (#[trigger] names@[j])@ == self.permissions@[j].name@,
            decreases self.permissions@.len() - i,
        {
            names.push(self.permissions[i].name.clone());
            i += 1;
        }
        names
    }
}

/// What a caller sends to create an account.
#[derive(Debug)]
pub struct CreateUserDto {
    pub name: String,
    pub age: i32,
    pub email: String,
    pub password: String,
}

/// What a caller sends to change an account: only what is to change.
#[derive(Debug)]
pub struct UpdateUserDto {
    pub name: Option<String>,
    pub age: Option<i32>,
    pub password: Option<String>,
}

/// What one column of an account is set to.
#[derive(Debug, PartialEq, Eq)]
pub enum ColumnValue {
    Text(String),
    Number(i32),
}

/// One column of an account and what it is set to.
#[derive(Debug, PartialEq, Eq)]
pub struct Assignment {
    pub column: &'static str,
    pub value: ColumnValue,
}

/// A column value as contracts speak of it.
pub enum Cell {
    Text(Seq<char>),
    Number(i32),
}

impl View for ColumnValue {
    type V = Cell;

    open spec fn view(&self) -> Cell {
        match self {
            ColumnValue::Text(text) => Cell::Text(text@),
            ColumnValue::Number(number) => Cell::Number(*number),
        }
    }
}

impl View for Assignment {
    type V = (Seq<char>, Cell);

    open spec fn view(&self) -> (Seq<char>, Cell) {
        (self.column@, self.value@)
    }
}

/// A change of an account as contracts speak of it.
pub struct Change {
    pub name: Option<Seq<char>>,
    pub age: Option<i32>,
    pub password: Option<Seq<char>>,
}

impl View for UpdateUserDto {
    type V = Change;

    open spec fn view(&self) -> Change {
        Change {
            name: match self.name {
                Some(text) => Some(text@),
                None => None,
            },
            age: self.age,
            password: match self.password {
                Some(text) => Some(text@),
                None => None,
            },
        }
    }
}

impl Change {
    /// The columns that the change sets, in the order name, age, password,
    /// each with its new value.
    pub open spec fn assignments(self) -> Seq<(Seq<char>, Cell)> {
        let name = match self.name {
            Some(text) => seq![("name"@, Cell::Text(text))],
            None => Seq::empty(),
        };
        let age = match self.age {
            Some(number) => seq![("age"@, Cell::Number(number))],
            None => Seq::empty(),
        };
        let password = match self.password {
            Some(text) => seq![("password"@, Cell::Text(text))],
            None => Seq::empty(),
        };
        name + age + password
    }
}

impl UpdateUserDto {
    /// The columns that the change sets, each with its new value. A change
    /// of nothing sets no column.
    pub fn assignments(self) -> (columns: Vec<Assignment>)
        ensures
            columns@.map_values(|one: Assignment| one@) == self@.assignments(),
    {
        let mut columns: Vec<Assignment> = Vec::new();
        if let Some(name) = self.name {
            columns.push(Assignment { column: "name", value: ColumnValue::Text(name) });
        }
        if let Some(age) = self.age {
            columns.push(Assignment { column: "age", value: ColumnValue::Number(age) });
        }
        if let Some(password) = self.password {
            columns.push(Assignment { column: "password", value: ColumnValue::Text(password) });
        }
        assert(columns@.map_values(|one: Assignment| one@) =~= self@.assignments());
        columns
    }
}

/// What a caller sends to replace the permissions of an account: the ids of
/// the permission rows.
#[derive(Debug)]
pub struct UpdateUserPermissionDto {
    pub permissions: Vec<i32>,
}

/// An account as it is shown to callers.
#[derive(Debug, PartialEq, Eq)]
pub struct ReadUserDto {
    pub id: i32,
    pub name: String,
    pub age: i32,
    pub email: String,
    pub permissions: Option<Vec<String>>,
}

/// A shown account as contracts speak of it.
pub struct Profile {
    pub id: i32,
    pub name: Seq<char>,
    pub age: i32,
    pub email: Seq<char>,
    pub permissions: Option<Seq<Seq<char>>>,
}

impl View for ReadUserDto {
    type V = Profile;

    open spec fn view(&self) -> Profile {
        Profile {
            id: self.id,
            name: self.name@,
            age: self.age,
            email: self.email@,
            permissions: match self.permissions {
                Some(names) => Some(names.deep_view()),
                None => None,
            },
        }
    }
}

impl From<User> for ReadUserDto {
    fn from(value: User) -> (shown: ReadUserDto)
        ensures
            shown@ == value@.shown(),
    {
        let permissions = if value.permissions.len() == 0 {
            None
        } else {
            Some(value.permission_names())
        };
        ReadUserDto {
            id: value.id,
            name: value.name,
            age: value.age,
            email: value.email,
            permissions,
        }
    }
}

/// The conversion is specified by the `ensures` of `from` itself, over views.
impl vstd::std_specs::convert::FromSpecImpl<User> for ReadUserDto {
    open spec fn obeys_from_spec() -> bool {
        false
    }

    open spec fn from_spec(value: User) -> ReadUserDto {
        choose|shown: ReadUserDto| shown@ == value@.shown()
    }
}

} // verus!
