use aliyundrive::complete::{
    candidates_for, command_names, command_pairs, local_pair, plan_completion,
    read_remote_entries, remote_name_pairs, special_remote_targets, split_local_prefix, words,
    Candidates, CompletionPlan, LocalPrefix, RemoteEntry,
};
use aliyundrive::order::{sort_texts, text_le};
use aliyundrive::text::chars_of;

fn texts(list: &[&str]) -> Vec<String> {
    list.iter().map(|w| w.to_string()).collect()
}

fn entry(name: &str, is_dir: bool) -> RemoteEntry {
    RemoteEntry { name: name.to_string(), is_dir }
}

const ALL: Candidates = Candidates::Remote { include_dirs: true, include_files: true, specials: false };
const ALL_AND_SPECIALS: Candidates =
    Candidates::Remote { include_dirs: true, include_files: true, specials: true };
const FILES: Candidates = Candidates::Remote { include_dirs: false, include_files: true, specials: false };
const DIRS_AND_SPECIALS: Candidates =
    Candidates::Remote { include_dirs: true, include_files: false, specials: true };

#[test]
fn words_are_the_runs_between_white_space() {
    for text in ["", "   ", "ls", " ls", "ls ", "ls  a\tb\n", "\u{3000}cp\u{a0}x y", "a b c d"] {
        let expected: Vec<String> = text.split_whitespace().map(|w| w.to_string()).collect();
        assert_eq!(words(text), expected, "words of {:?}", text);
    }
}

#[test]
fn the_order_of_texts_is_the_order_of_strings() {
    let samples = ["", "a", "ab", "b", "B", "a/", "a.", "é", "漢", "zz", "z", "abc", "abd", "Z"];
    for a in samples {
        for b in samples {
            assert_eq!(text_le(&chars_of(a), &chars_of(b)), a <= b, "{:?} <= {:?}", a, b);
        }
    }
}

#[test]
fn sorting_is_the_sorting_of_strings() {
    let input = texts(&["pear", "apple/", "Apple", "fig", "apple", "", "fig", "éclair", "zebra"]);
    let mut expected = input.clone();
    expected.sort();
    assert_eq!(sort_texts(&input), expected);
    assert_eq!(sort_texts(&Vec::new()), Vec::<String>::new());
    assert_eq!(sort_texts(&texts(&["one"])), texts(&["one"]));
}

#[test]
fn commands_that_begin_with_the_prefix() {
    let names = command_names();
    assert_eq!(
        names,
        texts(&["ls", "cd", "put", "get", "cp", "mv", "rm", "lls", "lcd", "help", "exit"])
    );
    assert_eq!(command_pairs("l", &names), texts(&["ls", "lls", "lcd"]));
    assert_eq!(command_pairs("c", &names), texts(&["cd", "cp"]));
    assert_eq!(command_pairs("", &names), names);
    assert_eq!(command_pairs("x", &names), Vec::<String>::new());
    assert_eq!(command_pairs("help", &names), texts(&["help"]));
    assert_eq!(command_pairs("helpx", &names), Vec::<String>::new());
}

#[test]
fn special_targets_that_begin_with_the_prefix() {
    assert_eq!(special_remote_targets(""), texts(&["..", "../", ".", "./"]));
    assert_eq!(special_remote_targets("."), texts(&["..", "../", ".", "./"]));
    assert_eq!(special_remote_targets(".."), texts(&["..", "../"]));
    assert_eq!(special_remote_targets("./"), texts(&["./"]));
    assert_eq!(special_remote_targets("d"), Vec::<String>::new());
}

#[test]
fn remote_names_that_fit() {
    let entries = vec![
        entry("music", true),
        entry("a.bin", false),
        entry("docs", true),
        entry("apple", false),
        entry("album", true),
    ];
    assert_eq!(
        remote_name_pairs(&entries, "", true, true),
        texts(&["a.bin", "album/", "apple", "docs/", "music/"])
    );
    assert_eq!(remote_name_pairs(&entries, "a", true, true), texts(&["a.bin", "album/", "apple"]));
    assert_eq!(remote_name_pairs(&entries, "a", false, true), texts(&["a.bin", "apple"]));
    assert_eq!(remote_name_pairs(&entries, "a", true, false), texts(&["album/"]));
    assert_eq!(remote_name_pairs(&entries, "a", false, false), Vec::<String>::new());
    assert_eq!(remote_name_pairs(&entries, "x", true, true), Vec::<String>::new());
}

#[test]
fn a_prefix_with_a_slash_has_no_remote_completion() {
    let entries = vec![entry("docs", true), entry("docs/x", false)];
    assert_eq!(remote_name_pairs(&entries, "docs/", true, true), Vec::<String>::new());
    assert_eq!(remote_name_pairs(&entries, "/", true, true), Vec::<String>::new());
}

#[test]
fn candidates_by_command_and_argument() {
    assert_eq!(candidates_for("rm", 1), ALL);
    assert_eq!(candidates_for("rm", 3), ALL);
    assert_eq!(candidates_for("get", 1), FILES);
    assert_eq!(candidates_for("get", 2), Candidates::Local);
    assert_eq!(candidates_for("cp", 1), ALL);
    assert_eq!(candidates_for("cp", 2), DIRS_AND_SPECIALS);
    assert_eq!(candidates_for("mv", 1), ALL);
    assert_eq!(candidates_for("mv", 2), DIRS_AND_SPECIALS);
    assert_eq!(candidates_for("ls", 1), ALL_AND_SPECIALS);
    assert_eq!(candidates_for("cd", 1), ALL_AND_SPECIALS);
    assert_eq!(candidates_for("mkdir", 1), ALL_AND_SPECIALS);
    assert_eq!(candidates_for("put", 1), Candidates::Local);
    assert_eq!(candidates_for("lls", 1), Candidates::Local);
    assert_eq!(candidates_for("lcd", 1), Candidates::Local);
    assert_eq!(candidates_for("help", 1), Candidates::Nothing);
    assert_eq!(candidates_for("pwd", 1), Candidates::Nothing);
}

fn plan(start: usize, prefix: &str, candidates: Candidates) -> CompletionPlan {
    CompletionPlan { start, prefix: prefix.to_string(), candidates }
}

#[test]
fn the_first_word_is_a_command() {
    assert_eq!(plan_completion(""), plan(0, "", Candidates::Commands));
    assert_eq!(plan_completion("l"), plan(0, "l", Candidates::Commands));
    assert_eq!(plan_completion("   "), plan(0, "", Candidates::Commands));
    assert_eq!(plan_completion("  he"), plan(0, "he", Candidates::Commands));
}

#[test]
fn later_words_are_arguments() {
    assert_eq!(plan_completion("ls "), plan(3, "", ALL_AND_SPECIALS));
    assert_eq!(plan_completion("ls do"), plan(3, "do", ALL_AND_SPECIALS));
    assert_eq!(plan_completion("get a"), plan(4, "a", FILES));
    assert_eq!(plan_completion("get a.bin "), plan(10, "", Candidates::Local));
    assert_eq!(plan_completion("get a.bin ~/d"), plan(10, "~/d", Candidates::Local));
    assert_eq!(plan_completion("cp a.bin do"), plan(9, "do", DIRS_AND_SPECIALS));
    assert_eq!(plan_completion("  rm   x"), plan(7, "x", ALL));
    assert_eq!(plan_completion("help x"), plan(5, "x", Candidates::Nothing));
}

#[test]
fn the_start_is_counted_in_bytes() {
    assert_eq!(plan_completion("rm 漢字 x"), plan(10, "x", ALL));
    assert_eq!(plan_completion("rm\u{3000}x"), plan(5, "x", ALL));
    let line = "cd é";
    let p = plan_completion(line);
    assert_eq!(p.start, 3);
    assert_eq!(&line[p.start..], "é");
}

fn parts(dir_part: &str, file_part: &str, dir_for_fs: &str) -> LocalPrefix {
    LocalPrefix {
        dir_part: dir_part.to_string(),
        file_part: file_part.to_string(),
        dir_for_fs: dir_for_fs.to_string(),
    }
}

#[test]
fn parts_of_a_local_path() {
    assert_eq!(split_local_prefix(""), parts("", "", "."));
    assert_eq!(split_local_prefix("fi"), parts("", "fi", "."));
    assert_eq!(split_local_prefix("docs/"), parts("docs/", "", "docs"));
    assert_eq!(split_local_prefix("docs/fi"), parts("docs/", "fi", "docs"));
    assert_eq!(split_local_prefix("/"), parts("/", "", "/"));
    assert_eq!(split_local_prefix("/et"), parts("/", "et", "/"));
    assert_eq!(split_local_prefix("//"), parts("//", "", "/"));
    assert_eq!(split_local_prefix("a//b"), parts("a//", "b", "a"));
    assert_eq!(split_local_prefix("~"), parts("~/", "", "~"));
    assert_eq!(split_local_prefix("$HOME"), parts("$HOME/", "", "$HOME"));
    assert_eq!(split_local_prefix("~/do"), parts("~/", "do", "~"));
}

#[test]
fn local_entries_that_fit() {
    let typed = split_local_prefix("docs/fi");
    assert_eq!(local_pair(&typed, "file.txt", false), Some("docs/file.txt".to_string()));
    assert_eq!(local_pair(&typed, "films", true), Some("docs/films/".to_string()));
    assert_eq!(local_pair(&typed, "other", false), None);
    let all = split_local_prefix("docs/");
    assert_eq!(local_pair(&all, "other", false), Some("docs/other".to_string()));
    let bare = split_local_prefix("");
    assert_eq!(local_pair(&bare, "x", true), Some("x/".to_string()));
}

#[test]
fn remote_entries_are_read_from_a_listing() {
    let body = r#"{"items":[
        {"name":"docs","type":"folder","file_id":"1"},
        {"name":"a.bin","type":"file","size":3},
        {"type":"folder"},
        {"name":7,"type":"folder"},
        {"name":"odd"},
        {"name":"n","type":"Folder"}
    ],"next_marker":""}"#;
    assert_eq!(
        read_remote_entries(body),
        vec![entry("docs", true), entry("a.bin", false), entry("odd", false), entry("n", false)]
    );
}

#[test]
fn no_remote_entries_without_a_listing() {
    assert_eq!(read_remote_entries("not json"), Vec::new());
    assert_eq!(read_remote_entries(r#"{"code":"AccessTokenInvalid"}"#), Vec::new());
    assert_eq!(read_remote_entries(r#"{"items":{"name":"x"}}"#), Vec::new());
    assert_eq!(read_remote_entries(r#"{"items":[]}"#), Vec::new());
}
