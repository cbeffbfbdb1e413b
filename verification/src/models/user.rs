//! The people of the user list.

use vstd::prelude::*;
use vstd::string::StringExecFns;

verus! {

/// The picture beside a user's name: none, or one emoji.
#[derive(Debug)]
pub enum Avatar {
    Empty,
    Emoji(String),
}

impl View for Avatar {
    type V = Option<Seq<char>>;

    /// The emoji's text, where there is one.
    open spec fn view(&self) -> Option<Seq<char>> {
        match self {
            Avatar::Empty => None,
            Avatar::Emoji(emoji) => Some(emoji@),
        }
    }
}

impl Avatar {
    /// The text that the avatar is shown as: nothing, or the emoji itself.
    pub open spec fn glyph(self) -> Seq<char> {
        match self {
            Avatar::Empty => Seq::empty(),
            Avatar::Emoji(emoji) => emoji@,
        }
    }

    /// The text that the avatar is shown as.
    pub fn to_string(&self) -> (text: String)
        ensures
            text@ == self.glyph(),
    {
        match self {
            Avatar::Empty => String::new(),
            Avatar::Emoji(emoji) => emoji.clone(),
        }
    }
}

/// A user of the list.
#[derive(Debug)]
pub struct User {
    pub first_name: String,
    pub last_name: String,
    pub avatar: Avatar,
}

/// The mathematical value of a user.
pub struct UserView {
    pub first_name: Seq<char>,
    pub last_name: Seq<char>,
    pub avatar: Option<Seq<char>>,
}

impl UserView {
    /// The user's name as it is shown: first name, one space, last name.
    pub open spec fn full_name(self) -> Seq<char> {
        self.first_name + seq![' '] + self.last_name
    }
}

impl View for User {
    type V = UserView;

    open spec fn view(&self) -> UserView {
        UserView {
            first_name: self.first_name@,
            last_name: self.last_name@,
            avatar: self.avatar@,
        }
    }
}

/// The values of a run of users, in the same order.
pub open spec fn user_views(users: Seq<User>) -> Seq<UserView> {
    users.map_values(|user: User| user@)
}

impl User {

    /// A user with the given names and avatar.
    pub fn new(fname: String, lname: String, avatar: Avatar) -> (user: User)
        ensures
            user.first_name == fname,
            user.last_name == lname,
            user.avatar == avatar,
    {
        User { first_name: fname, last_name: lname, avatar: avatar }
    }

    /// The user's first and last name with one space between them.
    pub fn full_name(&self) -> (full: String)
        ensures
            full@ == self@.full_name(),
    {
        let mut full = self.first_name.clone();
        proof {
            reveal_strlit(" ");
        }
        full.append(" ");
        full.append(self.last_name.as_str());
        full
    }
}

} // verus!
