//! Walking the remote tree: where the shell stands, and how a path is
//! followed from there, one folder at a time.
//!
//! The walk decides and the caller acts. Where the walk asks for a lookup,
//! the caller lists the folder `lookup_parent()` and reports the identifier
//! of its subfolder `lookup_name()`, or that there is none.

use vstd::prelude::*;
use vstd::string::*;
use crate::text::{same_text, spec_split, spec_starts_with, split, starts_with};

verus! {

/// A folder on the way from the root: the path it is shown by and its
/// identifier.
#[derive(Clone, Debug, PartialEq, Eq)]
pub struct Place {
    pub path: String,
    pub id: String,
}

/// A folder on the way from the root, as contracts speak of it.
pub struct PlaceView {
    pub path: Seq<char>,
    pub id: Seq<char>,
}

impl View for Place {
    type V = PlaceView;

    open spec fn view(&self) -> PlaceView {
        PlaceView { path: self.path@, id: self.id@ }
    }
}

/// What each of the places holds.
pub open spec fn spec_places(stack: Seq<Place>) -> Seq<PlaceView> {
    stack.map_values(|place: Place| place@)
}

/// The root of the remote tree.
pub open spec fn spec_root() -> PlaceView {
    PlaceView { path: "/root"@, id: "root"@ }
}

/// The root of the remote tree.
pub fn root_place() -> (place: Place)
    ensures
        place@ == spec_root(),
{
    Place { path: "/root".to_owned(), id: "root".to_owned() }
}

/// A copy of a place.
fn copy_place(place: &Place) -> (copy: Place)
    ensures
        copy@ == place@,
{
    Place { path: place.path.clone(), id: place.id.clone() }
}

/// A copy of a way.
fn copy_stack(stack: &Vec<Place>) -> (copy: Vec<Place>)
    ensures
        spec_places(copy@) == spec_places(stack@),
{
    let mut copy: Vec<Place> = Vec::new();
    let mut i: usize = 0;
    while i < stack.len()
        invariant
            i <= stack@.len(),
            copy@.len() == i,
            forall|j: int| 0 <= j < i ==> copy@[j]@ == stack@[j]@,
        decreases stack@.len() - i,
    {
        copy.push(copy_place(&stack[i]));
        i = i + 1;
    }
    proof {
        assert(spec_places(copy@) =~= spec_places(stack@));
    }
    copy
}

/// Where the shell stands in the remote tree: the folders from the root down
/// to the one it is in.
pub struct RemoteCursor {
    stack: Vec<Place>,
}

impl View for RemoteCursor {
    type V = Seq<PlaceView>;

    closed spec fn view(&self) -> Seq<PlaceView> {
        spec_places(self.stack@)
    }
}

impl RemoteCursor {
    /// The shell always stands somewhere.
    pub closed spec fn wf(&self) -> bool {
        self.stack@.len() >= 1
    }

    /// The identifier of the folder above the last of `way`: the root where
    /// there is none above.
    pub open spec fn spec_parent_id(way: Seq<PlaceView>) -> Seq<char> {
        if way.len() >= 2 {
            way[way.len() - 2].id
        } else {
            "root"@
        }
    }

    /// A shell that stands at the root.
    pub fn new() -> (cursor: RemoteCursor)
        ensures
            cursor.wf(),
            cursor@ == seq![spec_root()],
    {
        let mut stack: Vec<Place> = Vec::new();
        stack.push(root_place());
        let cursor = RemoteCursor { stack };
        assert(cursor@ =~= seq![spec_root()]);
        cursor
    }

    /// The folder the shell is in.
    pub fn current(&self) -> (place: &Place)
        requires
            self.wf(),
        ensures
            place@ == self@.last(),
    {
        &self.stack[self.stack.len() - 1]
    }

    /// Number of folders from the root down to the one the shell is in.
    pub fn depth(&self) -> (n: usize)
        ensures
            n == self@.len(),
    {
        self.stack.len()
    }

    /// The identifier of the folder above the one the shell is in; that of
    /// the root where the shell is at the root.
    pub fn parent_id(&self) -> (id: String)
        requires
            self.wf(),
        ensures
            id@ == Self::spec_parent_id(self@),
    {
        let n = self.stack.len();
        if n >= 2 {
            self.stack[n - 2].id.clone()
        } else {
            "root".to_owned()
        }
    }

    /// Moves the shell to where a walk has arrived.
    pub fn adopt(&mut self, walk: RemoteWalk)
        requires
            walk.wf(),
        ensures
            final(self).wf(),
            final(self)@ == walk@.stack,
    {
        self.stack = walk.stack;
    }
}

/// What became of a walk that cannot go on.
#[derive(Clone, Copy, Debug, PartialEq, Eq, Structural)]
pub enum PathError {
    /// The path steps up where it may only go down.
    ParentNotSupported,
    /// The folder has no subfolder of the name that was looked up.
    NotFound,
}

/// What a walk asks the caller to do next.
#[derive(Clone, Copy, Debug, PartialEq, Eq, Structural)]
pub enum WalkAction {
    /// Nothing: ask again.
    Continue,
    /// Tell the user that the walk is at the root and cannot step up, then
    /// ask again.
    AtRoot,
    /// Look the subfolder up and report what was found.
    Lookup,
    /// The walk has arrived.
    Arrived,
    /// The walk has failed.
    Fail(PathError),
}

/// The state of a walk as contracts speak of it.
pub struct WalkState {
    /// The folders from the start of the walk down to where it stands.
    pub stack: Seq<PlaceView>,
    /// The components of the path, in order.
    pub components: Seq<Seq<char>>,
    /// Number of components that are behind the walk.
    pub next: nat,
    /// Whether the path may step up.
    pub parents_allowed: bool,
    /// Why the walk cannot go on, if it cannot.
    pub failed: Option<PathError>,
}

impl WalkState {
    /// Whether the walk waits for the subfolder named by its next component.
    pub open spec fn awaits_lookup(self) -> bool {
        &&& self.failed is None
        &&& self.next < self.components.len()
        &&& self.components[self.next as int].len() > 0
        &&& self.components[self.next as int] != "."@
        &&& self.components[self.next as int] != ".."@
    }

    /// The walk after its next component, and what the caller is asked to
    /// do. An empty component and `.` are passed over. `..` steps up, but not
    /// above the start of the walk, and fails the walk where the path may
    /// only go down. Any other component is a name to look up.
    pub open spec fn spec_advance(self) -> (WalkState, WalkAction) {
        if self.failed is Some {
            (self, WalkAction::Fail(self.failed->0))
        } else if self.next >= self.components.len() {
            (self, WalkAction::Arrived)
        } else {
            let component = self.components[self.next as int];
            if component.len() == 0 || component == "."@ {
                (WalkState { next: self.next + 1, ..self }, WalkAction::Continue)
            } else if component == ".."@ {
                if !self.parents_allowed {
                    (
                        WalkState { failed: Some(PathError::ParentNotSupported), ..self },
                        WalkAction::Fail(PathError::ParentNotSupported),
                    )
                } else if self.stack.len() > 1 {
                    (
                        WalkState { stack: self.stack.drop_last(), next: self.next + 1, ..self },
                        WalkAction::Continue,
                    )
                } else {
                    (WalkState { next: self.next + 1, ..self }, WalkAction::AtRoot)
                }
            } else {
                (self, WalkAction::Lookup)
            }
        }
    }

    /// The walk after the answer to a lookup. The subfolder that was found
    /// becomes the place where the walk stands, shown by the path of the
    /// folder above, a slash, and its name. Where none was found, the walk
    /// has failed. An answer that was not asked for changes nothing.
    pub open spec fn spec_descend(self, found: Option<Seq<char>>) -> WalkState {
        if !self.awaits_lookup() {
            self
        } else {
            match found {
                Some(id) => WalkState {
                    stack: self.stack.push(
                        PlaceView {
                            path: self.stack.last().path + "/"@
                                + self.components[self.next as int],
                            id,
                        },
                    ),
                    next: self.next + 1,
                    ..self
                },
                None => WalkState { failed: Some(PathError::NotFound), ..self },
            }
        }
    }
}

/// Where a walk ends when every lookup of a name in a folder is answered by
/// `tree`: the walk is taken past one component after the other, each
/// lookup answered as it is asked, until the path is used up or the walk has
/// failed.
pub open spec fn spec_follow(
    state: WalkState,
    tree: spec_fn(Seq<char>, Seq<char>) -> Option<Seq<char>>,
) -> WalkState
    decreases state.components.len() - state.next,
{
    if state.failed is Some || state.next >= state.components.len() {
        state
    } else {
        let after = if state.awaits_lookup() {
            state.spec_descend(
                tree(state.stack.last().id, state.components[state.next as int]),
            )
        } else {
            state.spec_advance().0
        };
        if after.failed is Some {
            after
        } else {
            spec_follow(after, tree)
        }
    }
}

/// Whether `way` begins with the places of `start`.
pub open spec fn spec_leads_from(start: Seq<PlaceView>, way: Seq<PlaceView>) -> bool {
    start.len() <= way.len() && way.take(start.len() as int) == start
}

/// Whatever the tree, a walk ends somewhere: it stands in a folder, and
/// either it has failed or it has used up its path. A walk that may not
/// step up only goes down: where it ends lies below where it began.
pub proof fn lemma_walk_ends(
    state: WalkState,
    tree: spec_fn(Seq<char>, Seq<char>) -> Option<Seq<char>>,
)
    requires
        state.stack.len() >= 1,
        state.next <= state.components.len(),
    ensures
        spec_follow(state, tree).stack.len() >= 1,
        spec_follow(state, tree).components == state.components,
        spec_follow(state, tree).parents_allowed == state.parents_allowed,
        spec_follow(state, tree).failed is None ==> spec_follow(state, tree).next
            == state.components.len(),
        !state.parents_allowed ==> spec_leads_from(state.stack, spec_follow(state, tree).stack),
    decreases state.components.len() - state.next,
{
    assert(state.stack.take(state.stack.len() as int) =~= state.stack);
    if state.failed is None && state.next < state.components.len() {
        let after = if state.awaits_lookup() {
            state.spec_descend(
                tree(state.stack.last().id, state.components[state.next as int]),
            )
        } else {
            state.spec_advance().0
        };
        if after.failed is None {
            lemma_walk_ends(after, tree);
            if !state.parents_allowed {
                let end = spec_follow(after, tree).stack;
                assert(spec_leads_from(state.stack, after.stack)) by {
                    assert(after.stack.take(state.stack.len() as int) =~= state.stack);
                }
                assert(end.take(state.stack.len() as int) =~= end.take(
                    after.stack.len() as int,
                ).take(state.stack.len() as int));
            }
        } else {
            if !state.parents_allowed {
                assert(after.stack.take(state.stack.len() as int) =~= state.stack);
            }
        }
    }
}

/// Follows a path through the remote tree.
pub struct RemoteWalk {
    stack: Vec<Place>,
    components: Vec<String>,
    next: usize,
    parents_allowed: bool,
    failed: Option<PathError>,
}

impl View for RemoteWalk {
    type V = WalkState;

    closed spec fn view(&self) -> WalkState {
        WalkState {
            stack: spec_places(self.stack@),
            components: self.components@.map_values(|c: String| c@),
            next: self.next as nat,
            parents_allowed: self.parents_allowed,
            failed: self.failed,
        }
    }
}

impl RemoteWalk {
    /// The walk always stands somewhere, and is not beyond the end of its
    /// path.
    pub closed spec fn wf(&self) -> bool {
        &&& self.stack@.len() >= 1
        &&& self.next <= self.components@.len()
    }

    /// A walk that goes down from the folder `start_id`, folder by folder,
    /// and may not step up. The empty path stays at the start.
    pub fn resolve(start_id: &str, path: &str) -> (walk: RemoteWalk)
        ensures
            walk.wf(),
            walk@ == (WalkState {
                stack: seq![PlaceView { path: Seq::empty(), id: start_id@ }],
                components: spec_split(path@, '/'),
                next: 0,
                parents_allowed: false,
                failed: None,
            }),
    {
        let mut stack: Vec<Place> = Vec::new();
        stack.push(Place { path: String::new(), id: start_id.to_owned() });
        let walk = RemoteWalk {
            stack,
            components: split(path, '/'),
            next: 0,
            parents_allowed: false,
            failed: None,
        };
        proof {
            assert(walk@.stack =~= seq![PlaceView { path: Seq::empty(), id: start_id@ }]);
        }
        walk
    }

    /// A walk from where the shell stands, or from the root where the path
    /// begins with a slash; it may step up.
    pub fn from_cursor(cursor: &RemoteCursor, path: &str) -> (walk: RemoteWalk)
        requires
            cursor.wf(),
        ensures
            walk.wf(),
            walk@ == (WalkState {
                stack: if spec_starts_with(path@, "/"@) {
                    seq![spec_root()]
                } else {
                    cursor@
                },
                components: spec_split(path@, '/'),
                next: 0,
                parents_allowed: true,
                failed: None,
            }),
    {
        let stack = if starts_with(path, "/") {
            let mut stack: Vec<Place> = Vec::new();
            stack.push(root_place());
            assert(spec_places(stack@) =~= seq![spec_root()]);
            stack
        } else {
            copy_stack(&cursor.stack)
        };
        assert(stack@.len() == spec_places(stack@).len());
        RemoteWalk {
            stack,
            components: split(path, '/'),
            next: 0,
            parents_allowed: true,
            failed: None,
        }
    }

    /// Takes the walk past its next component, as far as that can be done
    /// without a lookup, and says what to do next.
    pub fn advance(&mut self) -> (action: WalkAction)
        requires
            old(self).wf(),
        ensures
            final(self).wf(),
            (final(self)@, action) == old(self)@.spec_advance(),
    {
        match self.failed {
            Some(error) => {
                return WalkAction::Fail(error);
            },
            None => {},
        }
        if self.next >= self.components.len() {
            return WalkAction::Arrived;
        }
        let component = self.components[self.next].as_str();
        if component.is_empty() || same_text(component, ".") {
            self.next = self.next + 1;
            WalkAction::Continue
        } else if same_text(component, "..") {
            if !self.parents_allowed {
                self.failed = Some(PathError::ParentNotSupported);
                WalkAction::Fail(PathError::ParentNotSupported)
            } else if self.stack.len() > 1 {
                self.stack.pop();
                self.next = self.next + 1;
                proof {
                    assert(spec_places(self.stack@) =~= spec_places(old(self).stack@).drop_last());
                }
                WalkAction::Continue
            } else {
                self.next = self.next + 1;
                WalkAction::AtRoot
            }
        } else {
            WalkAction::Lookup
        }
    }

    /// Whether the walk waits for the answer to a lookup.
    pub fn awaits_lookup(&self) -> (b: bool)
        requires
            self.wf(),
        ensures
            b == self@.awaits_lookup(),
    {
        if self.failed.is_some() || self.next >= self.components.len() {
            return false;
        }
        let component = self.components[self.next].as_str();
        !component.is_empty() && !same_text(component, ".") && !same_text(component, "..")
    }

    /// The identifier of the folder in which the lookup is made: the folder
    /// where the walk stands.
    pub fn lookup_parent(&self) -> (id: &String)
        requires
            self.wf(),
        ensures
            id@ == self@.stack.last().id,
    {
        &self.stack[self.stack.len() - 1].id
    }

    /// The name that is looked up: the next component of the path.
    pub fn lookup_name(&self) -> (name: &String)
        requires
            self.wf(),
            self@.next < self@.components.len(),
        ensures
            name@ == self@.components[self@.next as int],
    {
        &self.components[self.next]
    }

    /// Takes the answer to a lookup: the identifier of the subfolder, or
    /// that there is none.
    pub fn descend(&mut self, found: Option<String>)
        requires
            old(self).wf(),
        ensures
            final(self).wf(),
            final(self)@ == old(self)@.spec_descend(
                match found {
                    Some(id) => Some(id@),
                    None => None,
                },
            ),
    {
        if !self.awaits_lookup() {
            return ;
        }
        match found {
            Some(id) => {
                let count = self.components.len();
                assert(self.next < count);
                let mut path = self.stack[self.stack.len() - 1].path.clone();
                path.append("/");
                path.append(self.components[self.next].as_str());
                self.stack.push(Place { path, id });
                self.next = self.next + 1;
                proof {
                    let before = old(self)@;
                    let name = before.components[before.next as int];
                    assert(spec_places(self.stack@) =~= spec_places(old(self).stack@).push(
                        PlaceView { path: before.stack.last().path + "/"@ + name, id: id@ },
                    ));
                }
            },
            None => {
                self.failed = Some(PathError::NotFound);
            },
        }
    }

    /// The place where the walk stands.
    pub fn place(&self) -> (place: &Place)
        requires
            self.wf(),
        ensures
            place@ == self@.stack.last(),
    {
        &self.stack[self.stack.len() - 1]
    }
}

} // verus!
