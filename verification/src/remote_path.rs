//! Remote paths as the user writes them: which folder a path leads to, and
//! under which name a copy or a move puts a file.

use vstd::prelude::*;
use vstd::string::*;
use crate::text::{
    ends_with_char, rsplit_once, same_text, spec_rfind, spec_starts_with, spec_trim,
    spec_trim_end_char, spec_trim_start, starts_with, trim, trim_end_char, trim_start,
};

verus! {

/// How the folder that a path names is found.
#[derive(Clone, Debug, PartialEq, Eq)]
pub enum FolderRoute {
    /// It is the folder the shell is in.
    Current,
    /// It is the folder above the one the shell is in.
    Parent,
    /// It is the root.
    Root,
    /// It is found by going down folder by folder, from the root or from the
    /// folder the shell is in; the path may not step up.
    Resolve { from_root: bool, path: String },
    /// It is found by walking from the folder the shell is in, down and up.
    Walk { path: String },
}

/// Where a copy or a move puts a file.
#[derive(Clone, Debug, PartialEq, Eq)]
pub struct Destination {
    /// The folder that takes the file.
    pub folder: FolderRoute,
    /// The name that the file gets; where there is none it keeps its own.
    pub name: Option<String>,
}

/// An absolute path without what stands for the root at its beginning: the
/// slashes, then `root/` as often as it stands there, then `root`.
pub open spec fn spec_trim_root(path: Seq<char>) -> Seq<char> {
    spec_trim_start(spec_trim_start(spec_trim_start(path, "/"@), "root/"@), "root"@)
}

/// Whether `route` is how the folder to list is found: `.` and `..` are the
/// folder the shell is in and the one above; a path that begins with a slash
/// is resolved from the root, any other from the folder the shell is in.
pub open spec fn spec_is_listing_route(target: Seq<char>, route: FolderRoute) -> bool {
    if target == "."@ {
        route is Current
    } else if target == ".."@ {
        route is Parent
    } else if spec_starts_with(target, "/"@) {
        route matches FolderRoute::Resolve { from_root, path } && from_root && path@
            == spec_trim_root(target)
    } else {
        route matches FolderRoute::Resolve { from_root, path } && !from_root && path@ == target
    }
}

/// Whether `route` is how the folder that takes a file is found: the empty
/// path, `.` and `..` are the folder the shell is in and the one above; a
/// path that begins with a slash is the root or is resolved from it; any
/// other path is walked from the folder the shell is in.
pub open spec fn spec_is_folder_route(path: Seq<char>, route: FolderRoute) -> bool {
    if path.len() == 0 || path == "."@ {
        route is Current
    } else if path == ".."@ {
        route is Parent
    } else if spec_starts_with(path, "/"@) {
        if spec_trim_root(path).len() == 0 {
            route is Root
        } else {
            route matches FolderRoute::Resolve { from_root, path: rest } && from_root && rest@
                == spec_trim_root(path)
        }
    } else {
        route matches FolderRoute::Walk { path: walked } && walked@ == path
    }
}

/// Whether `destination` is what the target of a copy or a move says, white
/// space at its ends left aside. Nothing, `.` and `./` are the folder the
/// shell is in, `..` and `../` the one above, `/`, `/root` and `/root/` the
/// root; in each the file keeps its name. A target that ends with a slash
/// names a folder, and the file keeps its name. Any other target names the
/// file: what follows its last slash is the new name and what precedes it is
/// the folder, the folder the shell is in where there is no slash.
pub open spec fn spec_is_destination(target: Seq<char>, destination: Destination) -> bool {
    let trimmed = spec_trim(target);
    if trimmed.len() == 0 || trimmed == "."@ || trimmed == "./"@ {
        destination.folder is Current && destination.name is None
    } else if trimmed == ".."@ || trimmed == "../"@ {
        destination.folder is Parent && destination.name is None
    } else if trimmed == "/"@ || trimmed == "/root"@ || trimmed == "/root/"@ {
        destination.folder is Root && destination.name is None
    } else if trimmed.last() == '/' {
        let folder = spec_trim_end_char(trimmed, '/');
        if folder.len() == 0 {
            destination.folder is Current && destination.name is None
        } else {
            spec_is_folder_route(folder, destination.folder) && destination.name is None
        }
    } else {
        let at = spec_rfind(trimmed, '/', trimmed.len() as int);
        if at < 0 {
            &&& destination.folder is Current
            &&& destination.name matches Some(name)
            &&& name@ == trimmed
        } else {
            &&& spec_is_folder_route(trimmed.take(at), destination.folder)
            &&& destination.name matches Some(name)
            &&& name@ == trimmed.skip(at + 1)
        }
    }
}

/// An absolute path without what stands for the root at its beginning.
pub fn trim_root(path: &str) -> (rest: String)
    ensures
        rest@ == spec_trim_root(path@),
{
    let a = trim_start(path, "/");
    let b = trim_start(a.as_str(), "root/");
    trim_start(b.as_str(), "root")
}

/// How the folder to list is found.
pub fn route_to_listing(target: &str) -> (route: FolderRoute)
    ensures
        spec_is_listing_route(target@, route),
{
    if same_text(target, ".") {
        FolderRoute::Current
    } else if same_text(target, "..") {
        FolderRoute::Parent
    } else if starts_with(target, "/") {
        FolderRoute::Resolve { from_root: true, path: trim_root(target) }
    } else {
        FolderRoute::Resolve { from_root: false, path: target.to_owned() }
    }
}

/// How the folder that takes a file is found.
pub fn route_to_folder(path: &str) -> (route: FolderRoute)
    ensures
        spec_is_folder_route(path@, route),
{
    if path.is_empty() || same_text(path, ".") {
        FolderRoute::Current
    } else if same_text(path, "..") {
        FolderRoute::Parent
    } else if starts_with(path, "/") {
        let rest = trim_root(path);
        if rest.as_str().is_empty() {
            FolderRoute::Root
        } else {
            FolderRoute::Resolve { from_root: true, path: rest }
        }
    } else {
        FolderRoute::Walk { path: path.to_owned() }
    }
}

/// Where a copy or a move to `target` puts the file.
pub fn route_to_destination(target: &str) -> (destination: Destination)
    ensures
        spec_is_destination(target@, destination),
{
    let trimmed = trim(target);
    let t = trimmed.as_str();
    if t.is_empty() || same_text(t, ".") || same_text(t, "./") {
        Destination { folder: FolderRoute::Current, name: None }
    } else if same_text(t, "..") || same_text(t, "../") {
        Destination { folder: FolderRoute::Parent, name: None }
    } else if same_text(t, "/") || same_text(t, "/root") || same_text(t, "/root/") {
        Destination { folder: FolderRoute::Root, name: None }
    } else if ends_with_char(t, '/') {
        let folder = trim_end_char(t, '/');
        if folder.as_str().is_empty() {
            Destination { folder: FolderRoute::Current, name: None }
        } else {
            Destination { folder: route_to_folder(folder.as_str()), name: None }
        }
    } else {
        match rsplit_once(t, '/') {
            None => Destination { folder: FolderRoute::Current, name: Some(trimmed) },
            Some((folder, name)) => Destination {
                folder: route_to_folder(folder.as_str()),
                name: Some(name),
            },
        }
    }
}

} // verus!
