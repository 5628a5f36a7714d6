use aliyundrive::navigate::{PathError, Place, RemoteCursor, RemoteWalk, WalkAction};
use aliyundrive::remote_path::{
    route_to_destination, route_to_folder, route_to_listing, trim_root, Destination, FolderRoute,
};

fn text(t: &str) -> String {
    t.to_string()
}

fn resolve(from_root: bool, path: &str) -> FolderRoute {
    FolderRoute::Resolve { from_root, path: text(path) }
}

#[test]
fn root_prefix_is_trimmed() {
    assert_eq!(trim_root("/"), "");
    assert_eq!(trim_root("/root"), "");
    assert_eq!(trim_root("/root/"), "");
    assert_eq!(trim_root("/root/docs"), "docs");
    assert_eq!(trim_root("///root/root/docs/x"), "docs/x");
    assert_eq!(trim_root("/docs"), "docs");
    assert_eq!(trim_root("/rootdocs"), "docs");
    assert_eq!(trim_root("docs"), "docs");
}

#[test]
fn listing_routes() {
    assert_eq!(route_to_listing("."), FolderRoute::Current);
    assert_eq!(route_to_listing(".."), FolderRoute::Parent);
    assert_eq!(route_to_listing("/"), resolve(true, ""));
    assert_eq!(route_to_listing("/root/docs"), resolve(true, "docs"));
    assert_eq!(route_to_listing("docs/x"), resolve(false, "docs/x"));
    assert_eq!(route_to_listing(""), resolve(false, ""));
    assert_eq!(route_to_listing("../x"), resolve(false, "../x"));
}

#[test]
fn folder_routes() {
    assert_eq!(route_to_folder(""), FolderRoute::Current);
    assert_eq!(route_to_folder("."), FolderRoute::Current);
    assert_eq!(route_to_folder(".."), FolderRoute::Parent);
    assert_eq!(route_to_folder("/"), FolderRoute::Root);
    assert_eq!(route_to_folder("/root"), FolderRoute::Root);
    assert_eq!(route_to_folder("/root/docs"), resolve(true, "docs"));
    assert_eq!(route_to_folder("docs/../x"), FolderRoute::Walk { path: text("docs/../x") });
    assert_eq!(route_to_folder("../x"), FolderRoute::Walk { path: text("../x") });
}

#[test]
fn destinations_that_keep_the_name() {
    for target in ["", "  ", ".", "./", " . "] {
        assert_eq!(
            route_to_destination(target),
            Destination { folder: FolderRoute::Current, name: None },
            "target {:?}",
            target
        );
    }
    for target in ["..", "../"] {
        assert_eq!(
            route_to_destination(target),
            Destination { folder: FolderRoute::Parent, name: None }
        );
    }
    for target in ["/", "/root", "/root/", " /root "] {
        assert_eq!(
            route_to_destination(target),
            Destination { folder: FolderRoute::Root, name: None }
        );
    }
    assert_eq!(
        route_to_destination("docs/"),
        Destination { folder: FolderRoute::Walk { path: text("docs") }, name: None }
    );
    assert_eq!(
        route_to_destination("docs/sub///"),
        Destination { folder: FolderRoute::Walk { path: text("docs/sub") }, name: None }
    );
    assert_eq!(
        route_to_destination("/root/docs/"),
        Destination { folder: resolve(true, "docs"), name: None }
    );
    assert_eq!(
        route_to_destination("//"),
        Destination { folder: FolderRoute::Current, name: None }
    );
}

#[test]
fn destinations_that_rename() {
    assert_eq!(
        route_to_destination("b.bin"),
        Destination { folder: FolderRoute::Current, name: Some(text("b.bin")) }
    );
    assert_eq!(
        route_to_destination("docs/b.bin"),
        Destination { folder: FolderRoute::Walk { path: text("docs") }, name: Some(text("b.bin")) }
    );
    assert_eq!(
        route_to_destination("../b.bin"),
        Destination { folder: FolderRoute::Parent, name: Some(text("b.bin")) }
    );
    assert_eq!(
        route_to_destination("/root/docs/b.bin"),
        Destination { folder: resolve(true, "docs"), name: Some(text("b.bin")) }
    );
    assert_eq!(
        route_to_destination("/b.bin"),
        Destination { folder: FolderRoute::Current, name: Some(text("b.bin")) }
    );
    assert_eq!(
        route_to_destination("/root/b.bin"),
        Destination { folder: FolderRoute::Root, name: Some(text("b.bin")) }
    );
}

fn place(path: &str, id: &str) -> Place {
    Place { path: text(path), id: text(id) }
}

/// Drives a walk with a tree given as (parent id, name, id).
fn drive(walk: &mut RemoteWalk, tree: &[(&str, &str, &str)]) -> (WalkAction, Vec<String>, usize) {
    let mut lookups = Vec::new();
    let mut notes = 0;
    loop {
        match walk.advance() {
            WalkAction::Continue => {}
            WalkAction::AtRoot => notes += 1,
            WalkAction::Lookup => {
                assert!(walk.awaits_lookup());
                let parent = walk.lookup_parent().clone();
                let name = walk.lookup_name().clone();
                lookups.push(format!("{}:{}", parent, name));
                let found = tree
                    .iter()
                    .find(|(p, n, _)| *p == parent && *n == name)
                    .map(|(_, _, id)| id.to_string());
                walk.descend(found);
            }
            end => return (end, lookups, notes),
        }
    }
}

const TREE: [(&str, &str, &str); 4] = [
    ("root", "docs", "id-docs"),
    ("id-docs", "work", "id-work"),
    ("root", "music", "id-music"),
    ("id-work", "deep", "id-deep"),
];

#[test]
fn a_new_cursor_stands_at_the_root() {
    let cursor = RemoteCursor::new();
    assert_eq!(cursor.depth(), 1);
    assert_eq!(cursor.current(), &place("/root", "root"));
    assert_eq!(cursor.parent_id(), "root");
}

#[test]
fn walking_down_moves_the_cursor() {
    let mut cursor = RemoteCursor::new();
    let mut walk = RemoteWalk::from_cursor(&cursor, "docs/work");
    let (end, lookups, notes) = drive(&mut walk, &TREE);
    assert_eq!(end, WalkAction::Arrived);
    assert_eq!(lookups, vec!["root:docs", "id-docs:work"]);
    assert_eq!(notes, 0);
    assert_eq!(walk.place(), &place("/root/docs/work", "id-work"));
    cursor.adopt(walk);
    assert_eq!(cursor.depth(), 3);
    assert_eq!(cursor.current(), &place("/root/docs/work", "id-work"));
    assert_eq!(cursor.parent_id(), "id-docs");
}

#[test]
fn walking_up_and_down() {
    let mut cursor = RemoteCursor::new();
    let mut walk = RemoteWalk::from_cursor(&cursor, "docs/work");
    drive(&mut walk, &TREE);
    cursor.adopt(walk);
    let mut walk = RemoteWalk::from_cursor(&cursor, "../../music/./");
    let (end, lookups, notes) = drive(&mut walk, &TREE);
    assert_eq!(end, WalkAction::Arrived);
    assert_eq!(lookups, vec!["root:music"]);
    assert_eq!(notes, 0);
    assert_eq!(walk.place(), &place("/root/music", "id-music"));
}

#[test]
fn stepping_up_at_the_root_is_noted() {
    let cursor = RemoteCursor::new();
    let mut walk = RemoteWalk::from_cursor(&cursor, "../../docs");
    let (end, lookups, notes) = drive(&mut walk, &TREE);
    assert_eq!(end, WalkAction::Arrived);
    assert_eq!(notes, 2);
    assert_eq!(lookups, vec!["root:docs"]);
    assert_eq!(walk.place(), &place("/root/docs", "id-docs"));
}

#[test]
fn an_absolute_path_starts_at_the_root() {
    let mut cursor = RemoteCursor::new();
    let mut walk = RemoteWalk::from_cursor(&cursor, "docs/work/deep");
    drive(&mut walk, &TREE);
    cursor.adopt(walk);
    assert_eq!(cursor.depth(), 4);
    let mut walk = RemoteWalk::from_cursor(&cursor, "/music");
    let (end, lookups, _) = drive(&mut walk, &TREE);
    assert_eq!(end, WalkAction::Arrived);
    assert_eq!(lookups, vec!["root:music"]);
    assert_eq!(walk.place(), &place("/root/music", "id-music"));
}

#[test]
fn a_missing_folder_fails_the_walk_and_leaves_the_cursor() {
    let cursor = RemoteCursor::new();
    let mut walk = RemoteWalk::from_cursor(&cursor, "docs/nothing/deep");
    let (end, lookups, _) = drive(&mut walk, &TREE);
    assert_eq!(end, WalkAction::Fail(PathError::NotFound));
    assert_eq!(lookups, vec!["root:docs", "id-docs:nothing"]);
    assert_eq!(walk.lookup_name(), "nothing");
    assert_eq!(walk.advance(), WalkAction::Fail(PathError::NotFound));
    assert_eq!(cursor.current(), &place("/root", "root"));
}

#[test]
fn resolving_goes_down_only() {
    let mut walk = RemoteWalk::resolve("root", "docs//./work");
    let (end, lookups, _) = drive(&mut walk, &TREE);
    assert_eq!(end, WalkAction::Arrived);
    assert_eq!(lookups, vec!["root:docs", "id-docs:work"]);
    assert_eq!(walk.place().id, "id-work");

    let mut walk = RemoteWalk::resolve("id-docs", "work/../x");
    let (end, lookups, _) = drive(&mut walk, &TREE);
    assert_eq!(end, WalkAction::Fail(PathError::ParentNotSupported));
    assert_eq!(lookups, vec!["id-docs:work"]);
}

#[test]
fn resolving_the_empty_path_stays() {
    let mut walk = RemoteWalk::resolve("id-docs", "");
    let (end, lookups, _) = drive(&mut walk, &TREE);
    assert_eq!(end, WalkAction::Arrived);
    assert!(lookups.is_empty());
    assert_eq!(walk.place().id, "id-docs");
}

#[test]
fn an_answer_that_was_not_asked_for_changes_nothing() {
    let cursor = RemoteCursor::new();
    let mut walk = RemoteWalk::from_cursor(&cursor, "./docs");
    assert!(!walk.awaits_lookup());
    walk.descend(Some(text("stray")));
    assert_eq!(walk.place(), &place("/root", "root"));
    assert_eq!(walk.advance(), WalkAction::Continue);
    assert_eq!(walk.advance(), WalkAction::Lookup);
    walk.descend(Some(text("id-docs")));
    assert_eq!(walk.place(), &place("/root/docs", "id-docs"));
    assert_eq!(walk.advance(), WalkAction::Arrived);
    walk.descend(Some(text("stray")));
    assert_eq!(walk.place(), &place("/root/docs", "id-docs"));
}
