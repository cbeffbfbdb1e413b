//! The user list: two people, shown and never changed.

use vstd::prelude::*;
use vstd::string::StringExecFns;
use crate::models::user::{Avatar, User, UserView, user_views};

verus! {

/// The user list's state.
pub struct Model {
    users: Vec<User>,
}

/// The people that the list starts with and keeps.
pub open spec fn demo_users() -> Seq<UserView> {
    seq![
        UserView { first_name: "John"@, last_name: "Doe"@, avatar: None },
        UserView { first_name: "Jane"@, last_name: "Smith"@, avatar: Some("🐶"@) },
    ]
}

impl View for Model {
    type V = Seq<UserView>;

    closed spec fn view(&self) -> Seq<UserView> {
        user_views(self.users@)
    }
}

impl Model {
    /// The list with its two people.
    pub fn create() -> (model: Model)
        ensures
            model@ == demo_users(),
    {
        let mut users: Vec<User> = Vec::new();
        users.push(User::new(String::from_str("John"), String::from_str("Doe"), Avatar::Empty));
        users.push(
            User::new(
                String::from_str("Jane"),
                String::from_str("Smith"),
                Avatar::Emoji(String::from_str("🐶")),
            ),
        );
        Model { users }
    }

    /// The people of the list, in the order in which they are shown.
    pub fn users(&self) -> (users: &Vec<User>)
        ensures
            user_views(users@) == self@,
    {
        &self.users
    }
}

} // verus!
