//! The address of a screen, as the shell's router reports it.

use vstd::prelude::*;
use vstd::string::{StrSliceExecFns, StringExecFns};

verus! {

/// A location: the segments of its path and, where it has them, its query
/// and its fragment.
#[derive(Debug)]
pub struct Route {
    pub path_segments: Vec<String>,
    pub query: Option<String>,
    pub fragment: Option<String>,
}

/// The mathematical value of a location.
pub struct RouteView {
    pub path_segments: Seq<Seq<char>>,
    pub query: Option<Seq<char>>,
    pub fragment: Option<Seq<char>>,
}

/// The texts of a run of strings, in the same order.
pub open spec fn texts(strings: Seq<String>) -> Seq<Seq<char>> {
    strings.map_values(|s: String| s@)
}

/// The text of a string that may be missing.
pub open spec fn optional_text(string: Option<String>) -> Option<Seq<char>> {
    match string {
        Some(s) => Some(s@),
        None => None,
    }
}

/// The pieces of a path between its slashes, empty ones included: one more
/// than the path has slashes.
pub open spec fn split_path(path: Seq<char>) -> Seq<Seq<char>>
    decreases path.len(),
{
    if path.len() == 0 {
        seq![Seq::empty()]
    } else {
        let before = split_path(path.drop_last());
        if path.last() == '/' {
            before.push(Seq::empty())
        } else {
            before.drop_last().push(before.last().push(path.last()))
        }
    }
}

/// Segments with a slash between each two of them.
pub open spec fn joined(segments: Seq<Seq<char>>) -> Seq<char>
    decreases segments.len(),
{
    if segments.len() == 0 {
        Seq::empty()
    } else if segments.len() == 1 {
        segments[0]
    } else {
        joined(segments.drop_last()) + seq!['/'] + segments.last()
    }
}

/// What follows the mark that a query or a fragment begins with; a text of
/// the mark alone, or of nothing, holds no query and no fragment.
pub open spec fn after_mark(text: Seq<char>) -> Option<Seq<char>> {
    if text.len() > 1 {
        Some(text.skip(1))
    } else {
        None
    }
}

/// A part of an address that may be missing, behind its mark.
pub open spec fn marked(mark: char, part: Option<Seq<char>>) -> Seq<char> {
    match part {
        Some(text) => seq![mark] + text,
        None => Seq::empty(),
    }
}

impl RouteView {
    /// The location as an address: a slash, the segments with slashes between
    /// them, then the query behind `?` and the fragment behind `#`, where
    /// there are any.
    pub open spec fn address(self) -> Seq<char> {
        seq!['/'] + joined(self.path_segments) + marked('?', self.query) + marked(
            '#',
            self.fragment,
        )
    }

    /// The location that a browser reports as a path, a query with its `?`
    /// and a fragment with its `#`. What the path holds before its first
    /// slash, which is nothing in a path that begins with one, is no segment.
    pub open spec fn of_location(
        path: Seq<char>,
        query: Seq<char>,
        fragment: Seq<char>,
    ) -> RouteView {
        RouteView {
            path_segments: split_path(path).skip(1),
            query: after_mark(query),
            fragment: after_mark(fragment),
        }
    }
}

impl View for Route {
    type V = RouteView;

    open spec fn view(&self) -> RouteView {
        RouteView {
            path_segments: texts(self.path_segments@),
            query: optional_text(self.query),
            fragment: optional_text(self.fragment),
        }
    }
}

/// Whether a text holds no slash.
pub open spec fn slash_free(text: Seq<char>) -> bool {
    forall|i: int| 0 <= i < text.len() ==> #[trigger] text[i] != '/'
}

/// Every path has a last piece.
proof fn lemma_split_has_a_piece(path: Seq<char>)
    ensures
        split_path(path).len() >= 1,
    decreases path.len(),
{
    if path.len() > 0 {
        lemma_split_has_a_piece(path.drop_last());
    }
}

/// Text without a slash, written behind a path, lengthens the path's last
/// piece.
proof fn lemma_split_longer_piece(path: Seq<char>, text: Seq<char>)
    requires
        slash_free(text),
    ensures
        split_path(path).len() >= 1,
        split_path(path + text) == split_path(path).drop_last().push(
            split_path(path).last() + text,
        ),
    decreases text.len(),
{
    let pieces = split_path(path);
    lemma_split_has_a_piece(path);
    if text.len() > 0 {
        let front = text.drop_last();
        assert(slash_free(front));
        lemma_split_longer_piece(path, front);
        assert((path + text).drop_last() =~= path + front);
        assert((pieces.last() + front).push(text.last()) =~= pieces.last() + text);
    }
}

/// Reading a path that was written from segments gives the segments back,
/// behind the empty piece before the first slash.
proof fn lemma_split_joined(segments: Seq<Seq<char>>)
    requires
        segments.len() > 0,
        forall|i: int| 0 <= i < segments.len() ==> slash_free(#[trigger] segments[i]),
    ensures
        split_path(seq!['/'] + joined(segments)) == seq![Seq::<char>::empty()] + segments,
    decreases segments.len(),
{
    let root = seq!['/'];
    assert(split_path(root) =~= seq![Seq::<char>::empty(), Seq::<char>::empty()]) by {
        assert(split_path(root.drop_last()) =~= seq![Seq::<char>::empty()]);
    }
    if segments.len() == 1 {
        lemma_split_longer_piece(root, segments[0]);
    } else {
        let front = segments.drop_last();
        lemma_split_joined(front);
        let written = root + joined(front);
        let open = written.push('/');
        assert(open.drop_last() =~= written);
        lemma_split_longer_piece(open, segments.last());
        assert(root + joined(segments) =~= open + segments.last());
    }
}

/// Reading the parts of an address that was written gives the location back,
/// where the location has a segment, no segment holds a slash, and neither
/// the query nor the fragment is there but empty.
pub proof fn lemma_read_written_address(route: RouteView)
    requires
        route.path_segments.len() > 0,
        forall|i: int|
            0 <= i < route.path_segments.len() ==> slash_free(#[trigger] route.path_segments[i]),
        route.query != Some(Seq::<char>::empty()),
        route.fragment != Some(Seq::<char>::empty()),
    ensures
        route.address() == seq!['/'] + joined(route.path_segments) + marked('?', route.query)
            + marked('#', route.fragment),
        RouteView::of_location(
            seq!['/'] + joined(route.path_segments),
            marked('?', route.query),
            marked('#', route.fragment),
        ) == route,
{
    lemma_split_joined(route.path_segments);
    assert((seq![Seq::<char>::empty()] + route.path_segments).skip(1) =~= route.path_segments);
    match route.query {
        Some(query) => {
            assert(query.len() > 0) by {
                if query.len() == 0 {
                    assert(query =~= Seq::<char>::empty());
                }
            }
            assert((seq!['?'] + query).skip(1) =~= query);
        },
        None => {},
    }
    match route.fragment {
        Some(fragment) => {
            assert(fragment.len() > 0) by {
                if fragment.len() == 0 {
                    assert(fragment =~= Seq::<char>::empty());
                }
            }
            assert((seq!['#'] + fragment).skip(1) =~= fragment);
        },
        None => {},
    }
}

/// The text behind the first character of a text of two characters or more.
fn strip_mark(text: &str) -> (part: Option<String>)
    ensures
        optional_text(part) == after_mark(text@),
{
    let len = text.unicode_len();
    if len > 1 {
        Some(String::from_str(text.substring_char(1, len)))
    } else {
        None
    }
}

impl Route {
    /// The location as the address bar shows it.
    pub fn to_route_string(&self) -> (address: String)
        ensures
            address@ == self@.address(),
    {
        proof {
            reveal_strlit("/");
            reveal_strlit("?");
            reveal_strlit("#");
        }
        let ghost segments = texts(self.path_segments@);
        let mut address = String::from_str("/");
        let mut i: usize = 0;
        while i < self.path_segments.len()
            invariant
                i <= self.path_segments.len(),
                segments == texts(self.path_segments@),
                "/"@ == seq!['/'],
                address@ == seq!['/'] + joined(segments.take(i as int)),
            decreases self.path_segments.len() - i,
        {
            assert(segments.take(i + 1).drop_last() =~= segments.take(i as int));
            if i > 0 {
                address.append("/");
            }
            address.append(self.path_segments[i].as_str());
            assert(address@ =~= seq!['/'] + joined(segments.take(i + 1)));
            i += 1;
        }
        assert(segments.take(i as int) =~= segments);
        if let Some(query) = &self.query {
            address.append("?");
            address.append(query.as_str());
        }
        if let Some(fragment) = &self.fragment {
            address.append("#");
            address.append(fragment.as_str());
        }
        address
    }

    /// The location that a browser reports as a path, a query and a fragment.
    pub fn from_location(path: &str, query: &str, fragment: &str) -> (route: Route)
        ensures
            route@ == RouteView::of_location(path@, query@, fragment@),
    {
        let len = path.unicode_len();
        let mut path_segments: Vec<String> = Vec::new();
        let mut start: usize = 0;
        let mut in_path: bool = false;
        let mut i: usize = 0;
        let ghost mut done: Seq<Seq<char>> = Seq::empty();
        assert(path@.take(0) =~= Seq::empty());
        while i < len
            invariant
                len == path@.len(),
                start <= i <= len,
                in_path == (done.len() > 0),
                split_path(path@.take(i as int)) == done.push(path@.subrange(start as int, i as int)),
                texts(path_segments@) == if in_path {
                    done.skip(1)
                } else {
                    Seq::empty()
                },
            decreases len - i,
        {
            let ghost piece = path@.subrange(start as int, i as int);
            let ghost pieces = done.push(piece);
            assert(path@.take(i + 1).drop_last() =~= path@.take(i as int));
            if path.get_char(i) == '/' {
                if in_path {
                    let ghost segments = path_segments@;
                    path_segments.push(String::from_str(path.substring_char(start, i)));
                    assert(texts(path_segments@) =~= texts(segments).push(piece));
                }
                in_path = true;
                start = i + 1;
                proof {
                    done = pieces;
                }
                assert(path@.subrange(start as int, i + 1) =~= Seq::empty());
            } else {
                assert(piece.push(path@[i as int]) =~= path@.subrange(start as int, i + 1));
            }
            i += 1;
        }
        assert(path@.take(i as int) =~= path@);
        let ghost piece = path@.subrange(start as int, len as int);
        if in_path {
            let ghost segments = path_segments@;
            path_segments.push(String::from_str(path.substring_char(start, len)));
            assert(texts(path_segments@) =~= texts(segments).push(piece));
            assert(texts(path_segments@) =~= done.push(piece).skip(1));
        } else {
            assert(done.push(piece).skip(1) =~= Seq::empty());
        }
        Route { path_segments, query: strip_mark(query), fragment: strip_mark(fragment) }
    }
}

} // verus!
