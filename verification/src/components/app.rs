//! The shell: which screen is shown, and how a location selects it.

use vstd::prelude::*;
use vstd::string::StringExecFns;
use crate::router::{Route, RouteView};
use crate::text::same_text;

verus! {

/// The screen that the shell shows.
#[derive(Debug)]
pub enum Child {
    Board,
    UserList,
    /// No screen: the first segment of a path that leads nowhere.
    PathNotFound(String),
}

/// The mathematical value of a screen selection.
pub enum ChildView {
    Board,
    UserList,
    PathNotFound(Seq<char>),
}

impl View for Child {
    type V = ChildView;

    open spec fn view(&self) -> ChildView {
        match self {
            Child::Board => ChildView::Board,
            Child::UserList => ChildView::UserList,
            Child::PathNotFound(path) => ChildView::PathNotFound(path@),
        }
    }
}

impl ChildView {
    /// The one path segment that leads to a screen. Every selection without a
    /// screen is led to by the same segment, whatever path it came from.
    pub open spec fn segment(self) -> Seq<char> {
        match self {
            ChildView::Board => "board"@,
            ChildView::UserList => "users"@,
            ChildView::PathNotFound(_) => "path_not_found"@,
        }
    }

    /// The location that leads to a screen: one path segment, no query and no
    /// fragment.
    pub open spec fn route(self) -> RouteView {
        RouteView { path_segments: seq![self.segment()], query: None, fragment: None }
    }

    /// The screen that a path selects: by its first segment the board or the
    /// user list, otherwise no screen, under the first segment's name; an
    /// empty path selects no screen under a fixed name.
    pub open spec fn of_path(path_segments: Seq<Seq<char>>) -> ChildView {
        if path_segments.len() == 0 {
            ChildView::PathNotFound("path_not_found"@)
        } else if path_segments[0] == "board"@ {
            ChildView::Board
        } else if path_segments[0] == "users"@ {
            ChildView::UserList
        } else {
            ChildView::PathNotFound(path_segments[0])
        }
    }
}

impl Child {
    /// The location that leads to the screen.
    pub fn route(&self) -> (route: Route)
        ensures
            route@ == self@.route(),
    {
        let segment = match self {
            Child::Board => String::from_str("board"),
            Child::UserList => String::from_str("users"),
            Child::PathNotFound(_) => String::from_str("path_not_found"),
        };
        let mut path_segments: Vec<String> = Vec::new();
        path_segments.push(segment);
        let route = Route { path_segments, query: None, fragment: None };
        assert(route@.path_segments =~= seq![self@.segment()]);
        route
    }

    /// The screen that a location selects, which depends on its path alone.
    pub fn from_route(route: &Route) -> (child: Child)
        ensures
            child@ == ChildView::of_path(route@.path_segments),
    {
        if route.path_segments.len() == 0 {
            Child::PathNotFound(String::from_str("path_not_found"))
        } else {
            let first = &route.path_segments[0];
            if same_text(first.as_str(), "board") {
                Child::Board
            } else if same_text(first.as_str(), "users") {
                Child::UserList
            } else {
                Child::PathNotFound(first.clone())
            }
        }
    }
}

/// A message to the shell.
#[derive(Debug)]
pub enum Msg {
    /// The user asks for a screen.
    NavigateTo(Child),
    /// The router reports the location that is now current.
    HandleRoute(Route),
}

/// What the shell's surroundings are to do after a message.
#[derive(Debug)]
pub enum Action {
    /// Ask the router to go to a location; nothing is to be drawn yet.
    ChangeRoute(Route),
    /// Draw the shell again.
    Render,
}

/// The shell's state: the screen that is shown.
pub struct Model {
    child: Child,
}

impl View for Model {
    type V = ChildView;

    closed spec fn view(&self) -> ChildView {
        self.child@
    }
}

impl Model {
    /// The shell as it starts, on the board, until the router reports where
    /// it really is.
    pub fn create() -> (model: Model)
        ensures
            model@ == ChildView::Board,
    {
        Model { child: Child::Board }
    }

    /// The screen that is shown.
    pub fn child(&self) -> (child: &Child)
        ensures
            child@ == self@,
    {
        &self.child
    }

    /// Applies a message. A request for a screen changes nothing yet and
    /// hands out the location to ask the router for; a reported location
    /// selects the screen and asks for a redraw.
    pub fn update(&mut self, msg: Msg) -> (action: Action)
        ensures
            match msg {
                Msg::NavigateTo(child) => {
                    &&& final(self)@ == old(self)@
                    &&& action matches Action::ChangeRoute(route) && route@ == child@.route()
                },
                Msg::HandleRoute(route) => {
                    &&& final(self)@ == ChildView::of_path(route@.path_segments)
                    &&& action is Render
                },
            },
    {
        match msg {
            Msg::NavigateTo(child) => Action::ChangeRoute(child.route()),
            Msg::HandleRoute(route) => {
                self.child = Child::from_route(&route);
                Action::Render
            },
        }
    }
}

/// Asking for the board or for the user list and then following the location
/// that was asked for shows that screen.
pub proof fn lemma_route_leads_to_its_screen(child: ChildView)
    requires
        !(child is PathNotFound),
    ensures
        ChildView::of_path(child.route().path_segments) == child,
{
    reveal_strlit("board");
    reveal_strlit("users");
    assert("board"@[0] != "users"@[0]);
}

} // verus!
