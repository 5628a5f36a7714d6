//! Completion of the line that the user is typing: what is being completed,
//! from which kind of names, and which names fit.

use vstd::prelude::*;
use vstd::string::*;
use crate::json::{
    json_document, member_items, member_string, parse, spec_member_items, spec_member_string,
};
use crate::order::{sort_texts, spec_sorted};
use crate::text::{
    chars_of, find, is_white_space, piece, rsplit_once, same_text, spec_find, spec_rfind,
    spec_starts_with, spec_texts, spec_trim_end_char, starts_with, trim_end_char, white_space,
};

verus! {

/// Where white space first stands in `text` at or after `from`; the length
/// of the text where it does not.
pub open spec fn spec_find_white(text: Seq<char>, from: int) -> int
    decreases text.len() - from,
{
    if from >= text.len() {
        text.len() as int
    } else if is_white_space(text[from]) {
        from
    } else {
        spec_find_white(text, from + 1)
    }
}

/// Where a character that is no white space first stands in `text` at or
/// after `from`; the length of the text where none does.
pub open spec fn spec_find_word(text: Seq<char>, from: int) -> int
    decreases text.len() - from,
{
    if from >= text.len() {
        text.len() as int
    } else if !is_white_space(text[from]) {
        from
    } else {
        spec_find_word(text, from + 1)
    }
}

/// Where the word that is being typed begins: behind the last white space
/// of `text` before `before`, at 0 where there is none.
pub open spec fn spec_word_start(text: Seq<char>, before: int) -> int
    decreases before,
{
    if before <= 0 {
        0
    } else if is_white_space(text[before - 1]) {
        before
    } else {
        spec_word_start(text, before - 1)
    }
}

/// The words of `text` from `from` on: the runs of characters between white
/// space, in order.
pub open spec fn spec_words_from(text: Seq<char>, from: int) -> Seq<Seq<char>>
    decreases text.len() - from,
{
    let begin = spec_find_word(text, from);
    if from < 0 || begin >= text.len() {
        Seq::empty()
    } else {
        let end = spec_find_white(text, begin);
        proof {
            lemma_find_word(text, from);
            lemma_find_white(text, begin);
        }
        seq![text.subrange(begin, end)] + spec_words_from(text, end)
    }
}

/// The words of `text`.
pub open spec fn spec_words(text: Seq<char>) -> Seq<Seq<char>> {
    spec_words_from(text, 0)
}

/// `spec_find_word` stays within the text and finds a character that is no
/// white space.
pub proof fn lemma_find_word(text: Seq<char>, from: int)
    requires
        0 <= from <= text.len(),
    ensures
        from <= spec_find_word(text, from) <= text.len(),
        spec_find_word(text, from) < text.len() ==> !is_white_space(
            text[spec_find_word(text, from)],
        ),
    decreases text.len() - from,
{
    if from < text.len() && is_white_space(text[from]) {
        lemma_find_word(text, from + 1);
    }
}

/// `spec_find_white` stays within the text, and from a character that is no
/// white space it moves on.
pub proof fn lemma_find_white(text: Seq<char>, from: int)
    requires
        0 <= from <= text.len(),
    ensures
        from <= spec_find_white(text, from) <= text.len(),
        from < text.len() && !is_white_space(text[from]) ==> from < spec_find_white(text, from),
    decreases text.len() - from,
{
    if from < text.len() && !is_white_space(text[from]) {
        lemma_find_white(text, from + 1);
    }
}

/// The words of `text`.
pub fn words(text: &str) -> (found: Vec<String>)
    ensures
        spec_texts(found@) == spec_words(text@),
{
    let chars = chars_of(text);
    let total = chars.len();
    let mut found: Vec<String> = Vec::new();
    let mut from: usize = 0;
    loop
        invariant_except_break
            from <= total,
            total == chars@.len(),
            chars@ == text@,
            spec_words(text@) == spec_texts(found@) + spec_words_from(chars@, from as int),
        ensures
            spec_texts(found@) == spec_words(text@),
        decreases total - from,
    {
        let mut begin = from;
        while begin < total && white_space(chars[begin])
            invariant
                from <= begin <= total,
                total == chars@.len(),
                spec_find_word(chars@, from as int) == spec_find_word(chars@, begin as int),
            decreases total - begin,
        {
            begin = begin + 1;
        }
        if begin >= total {
            proof {
                assert(spec_texts(found@) + Seq::<Seq<char>>::empty() =~= spec_texts(found@));
            }
            break;
        }
        let mut end = begin;
        while end < total && !white_space(chars[end])
            invariant
                begin <= end <= total,
                total == chars@.len(),
                spec_find_white(chars@, begin as int) == spec_find_white(chars@, end as int),
            decreases total - end,
        {
            end = end + 1;
        }
        let ghost before = spec_texts(found@);
        found.push(piece(text, begin, end));
        proof {
            lemma_find_white(chars@, begin as int);
            let word = chars@.subrange(begin as int, end as int);
            assert(spec_texts(found@) =~= before.push(word));
            assert(before.push(word) + spec_words_from(chars@, end as int) =~= before + (seq![
                word,
            ] + spec_words_from(chars@, end as int)));
        }
        from = end;
    }
    found
}

/// From which names a word is completed.
#[derive(Clone, Copy, Debug, PartialEq, Eq, Structural)]
pub enum Candidates {
    /// From the names of the commands.
    Commands,
    /// From the entries of the remote folder the shell is in: its folders,
    /// its files, and the names that stand for this folder and the one above.
    Remote { include_dirs: bool, include_files: bool, specials: bool },
    /// From the entries of a local directory.
    Local,
    /// From nothing.
    Nothing,
}

/// What is being completed.
#[derive(Clone, Debug, PartialEq, Eq)]
pub struct CompletionPlan {
    /// Where the word that is being typed begins, in bytes from the
    /// beginning of the line.
    pub start: usize,
    /// What is typed of the word so far.
    pub prefix: String,
    /// From which names the word is completed.
    pub candidates: Candidates,
}

/// From which names argument `argument` (counted from 1) of `command` is
/// completed.
pub open spec fn spec_candidates(command: Seq<char>, argument: int) -> Candidates {
    if command == "rm"@ {
        Candidates::Remote { include_dirs: true, include_files: true, specials: false }
    } else if command == "get"@ {
        if argument == 1 {
            Candidates::Remote { include_dirs: false, include_files: true, specials: false }
        } else {
            Candidates::Local
        }
    } else if command == "cp"@ || command == "mv"@ {
        if argument == 1 {
            Candidates::Remote { include_dirs: true, include_files: true, specials: false }
        } else {
            Candidates::Remote { include_dirs: true, include_files: false, specials: true }
        }
    } else if command == "ls"@ || command == "cd"@ || command == "mkdir"@ {
        Candidates::Remote { include_dirs: true, include_files: true, specials: true }
    } else if command == "put"@ || command == "lls"@ || command == "lcd"@ {
        Candidates::Local
    } else {
        Candidates::Nothing
    }
}

/// Whether `plan` says what is being completed at the end of `input`. The
/// word that is being typed is what follows the last white space. Where no
/// word precedes it, it is the name of a command, and the completion
/// replaces the line from its beginning. Else the first word is the command,
/// and the word is its argument, counted by the words that precede it.
pub open spec fn spec_is_plan(input: Seq<char>, plan: CompletionPlan) -> bool {
    let start = spec_word_start(input, input.len() as int);
    let before = spec_words(input.take(start));
    &&& plan.prefix@ == input.skip(start)
    &&& if before.len() == 0 {
        plan.start == 0 && plan.candidates == Candidates::Commands
    } else {
        plan.start == vstd::utf8::encode_utf8(input.take(start)).len() && plan.candidates
            == spec_candidates(before[0], before.len() as int)
    }
}

/// From which names argument `argument` (counted from 1) of `command` is
/// completed.
pub fn candidates_for(command: &str, argument: usize) -> (candidates: Candidates)
    ensures
        candidates == spec_candidates(command@, argument as int),
{
    if same_text(command, "rm") {
        Candidates::Remote { include_dirs: true, include_files: true, specials: false }
    } else if same_text(command, "get") {
        if argument == 1 {
            Candidates::Remote { include_dirs: false, include_files: true, specials: false }
        } else {
            Candidates::Local
        }
    } else if same_text(command, "cp") || same_text(command, "mv") {
        if argument == 1 {
            Candidates::Remote { include_dirs: true, include_files: true, specials: false }
        } else {
            Candidates::Remote { include_dirs: true, include_files: false, specials: true }
        }
    } else if same_text(command, "ls") || same_text(command, "cd") || same_text(
        command,
        "mkdir",
    ) {
        Candidates::Remote { include_dirs: true, include_files: true, specials: true }
    } else if same_text(command, "put") || same_text(command, "lls") || same_text(
        command,
        "lcd",
    ) {
        Candidates::Local
    } else {
        Candidates::Nothing
    }
}

/// What is being completed at the end of `input`, the line up to the cursor.
pub fn plan_completion(input: &str) -> (plan: CompletionPlan)
    ensures
        spec_is_plan(input@, plan),
{
    let chars = chars_of(input);
    let total = chars.len();
    let mut start: usize = total;
    while start > 0 && !white_space(chars[start - 1])
        invariant
            start <= total,
            total == chars@.len(),
            spec_word_start(chars@, total as int) == spec_word_start(chars@, start as int),
        decreases start,
    {
        start = start - 1;
    }
    let head = piece(input, 0, start);
    let prefix = piece(input, start, total);
    proof {
        assert(input@.subrange(0, start as int) =~= input@.take(start as int));
        assert(input@.subrange(start as int, total as int) =~= input@.skip(start as int));
    }
    let before = words(head.as_str());
    proof {
        assert(spec_texts(before@).len() == before@.len());
        if before@.len() > 0 {
            assert(spec_texts(before@)[0] == before@[0]@);
        }
        assert(head@ == input@.take(start as int));
    }
    if before.len() == 0 {
        CompletionPlan { start: 0, prefix, candidates: Candidates::Commands }
    } else {
        CompletionPlan {
            start: head.as_str().as_bytes().len(),
            prefix,
            candidates: candidates_for(before[0].as_str(), before.len()),
        }
    }
}

/// The names among `names` that begin with `prefix`, in the order of `names`.
pub open spec fn spec_with_prefix(names: Seq<Seq<char>>, prefix: Seq<char>) -> Seq<Seq<char>>
    decreases names.len(),
{
    if names.len() == 0 {
        Seq::empty()
    } else if spec_starts_with(names.last(), prefix) {
        spec_with_prefix(names.drop_last(), prefix).push(names.last())
    } else {
        spec_with_prefix(names.drop_last(), prefix)
    }
}

/// The commands among `commands` that begin with `prefix`, in their order.
pub fn command_pairs(prefix: &str, commands: &Vec<String>) -> (fitting: Vec<String>)
    ensures
        spec_texts(fitting@) == spec_with_prefix(spec_texts(commands@), prefix@),
{
    let mut fitting: Vec<String> = Vec::new();
    let mut k: usize = 0;
    proof {
        assert(spec_texts(commands@).take(0) =~= Seq::<Seq<char>>::empty());
        assert(spec_texts(fitting@) =~= Seq::<Seq<char>>::empty());
    }
    while k < commands.len()
        invariant
            k <= commands@.len(),
            spec_texts(fitting@) == spec_with_prefix(
                spec_texts(commands@).take(k as int),
                prefix@,
            ),
        decreases commands@.len() - k,
    {
        let ghost before = spec_texts(fitting@);
        proof {
            let taken = spec_texts(commands@).take(k + 1);
            assert(taken.drop_last() =~= spec_texts(commands@).take(k as int));
            assert(taken.last() == commands@[k as int]@);
        }
        if starts_with(commands[k].as_str(), prefix) {
            fitting.push(commands[k].clone());
            proof {
                assert(spec_texts(fitting@) =~= before.push(commands@[k as int]@));
            }
        }
        k = k + 1;
    }
    proof {
        assert(spec_texts(commands@).take(k as int) =~= spec_texts(commands@));
    }
    fitting
}

/// The names of the commands that are completed.
pub open spec fn spec_command_names() -> Seq<Seq<char>> {
    seq![
        "ls"@,
        "cd"@,
        "put"@,
        "get"@,
        "cp"@,
        "mv"@,
        "rm"@,
        "lls"@,
        "lcd"@,
        "help"@,
        "exit"@,
    ]
}

/// The names that stand for the folder above and for this folder.
pub open spec fn spec_special_targets() -> Seq<Seq<char>> {
    seq![".."@, "../"@, "."@, "./"@]
}

/// The names of the commands that are completed.
pub fn command_names() -> (names: Vec<String>)
    ensures
        spec_texts(names@) == spec_command_names(),
{
    let mut names: Vec<String> = Vec::new();
    names.push("ls".to_owned());
    names.push("cd".to_owned());
    names.push("put".to_owned());
    names.push("get".to_owned());
    names.push("cp".to_owned());
    names.push("mv".to_owned());
    names.push("rm".to_owned());
    names.push("lls".to_owned());
    names.push("lcd".to_owned());
    names.push("help".to_owned());
    names.push("exit".to_owned());
    proof {
        assert(spec_texts(names@) =~= spec_command_names());
    }
    names
}

/// The names for the folder above and for this folder that begin with
/// `prefix`.
pub fn special_remote_targets(prefix: &str) -> (fitting: Vec<String>)
    ensures
        spec_texts(fitting@) == spec_with_prefix(spec_special_targets(), prefix@),
{
    let mut specials: Vec<String> = Vec::new();
    specials.push("..".to_owned());
    specials.push("../".to_owned());
    specials.push(".".to_owned());
    specials.push("./".to_owned());
    proof {
        assert(spec_texts(specials@) =~= spec_special_targets());
    }
    command_pairs(prefix, &specials)
}

/// An entry of the remote folder the shell is in, as completion sees it.
#[derive(Clone, Debug, PartialEq, Eq)]
pub struct RemoteEntry {
    pub name: String,
    pub is_dir: bool,
}

impl RemoteEntry {
    /// Whether the entry is wanted and its name begins with `prefix`.
    pub open spec fn fits(&self, prefix: Seq<char>, include_dirs: bool, include_files: bool) -> bool {
        &&& include_dirs || !self.is_dir
        &&& include_files || self.is_dir
        &&& spec_starts_with(self.name@, prefix)
    }

    /// What completes to the entry: its name, with a slash behind it where it
    /// is a folder.
    pub open spec fn label(&self) -> Seq<char> {
        if self.is_dir {
            self.name@ + "/"@
        } else {
            self.name@
        }
    }
}

/// What the entries that fit complete to, in the order of the entries.
pub open spec fn spec_remote_labels(
    entries: Seq<RemoteEntry>,
    prefix: Seq<char>,
    include_dirs: bool,
    include_files: bool,
) -> Seq<Seq<char>>
    decreases entries.len(),
{
    if entries.len() == 0 {
        Seq::empty()
    } else {
        let rest = spec_remote_labels(entries.drop_last(), prefix, include_dirs, include_files);
        if entries.last().fits(prefix, include_dirs, include_files) {
            rest.push(entries.last().label())
        } else {
            rest
        }
    }
}

/// The completions of `prefix` among the entries of the remote folder: none
/// where the prefix holds a slash; else what the entries that fit complete
/// to, in the order of the dictionary.
pub fn remote_name_pairs(
    entries: &Vec<RemoteEntry>,
    prefix: &str,
    include_dirs: bool,
    include_files: bool,
) -> (fitting: Vec<String>)
    ensures
        spec_find(prefix@, '/', 0) < prefix@.len() ==> fitting@.len() == 0,
        spec_find(prefix@, '/', 0) >= prefix@.len() ==> {
            &&& spec_sorted(spec_texts(fitting@))
            &&& spec_texts(fitting@).to_multiset() == spec_remote_labels(
                entries@,
                prefix@,
                include_dirs,
                include_files,
            ).to_multiset()
        },
{
    let prefix_chars = chars_of(prefix);
    if find(&prefix_chars, '/', 0) < prefix_chars.len() {
        return Vec::new();
    }
    let mut labels: Vec<String> = Vec::new();
    let mut k: usize = 0;
    proof {
        assert(spec_texts(labels@) =~= Seq::<Seq<char>>::empty());
        assert(entries@.take(0) =~= Seq::<RemoteEntry>::empty());
    }
    while k < entries.len()
        invariant
            k <= entries@.len(),
            spec_texts(labels@) == spec_remote_labels(
                entries@.take(k as int),
                prefix@,
                include_dirs,
                include_files,
            ),
        decreases entries@.len() - k,
    {
        let entry = &entries[k];
        let ghost before = spec_texts(labels@);
        proof {
            let taken = entries@.take(k + 1);
            assert(taken.drop_last() =~= entries@.take(k as int));
            assert(taken.last() == entries@[k as int]);
        }
        if (include_dirs || !entry.is_dir) && (include_files || entry.is_dir) && starts_with(
            entry.name.as_str(),
            prefix,
        ) {
            let mut label = entry.name.clone();
            if entry.is_dir {
                label.append("/");
            }
            labels.push(label);
            proof {
                assert(spec_texts(labels@) =~= before.push(entry.label()));
            }
        }
        k = k + 1;
    }
    proof {
        assert(entries@.take(k as int) =~= entries@);
    }
    sort_texts(&labels)
}

/// The parts of a local path that is being typed.
#[derive(Clone, Debug, PartialEq, Eq)]
pub struct LocalPrefix {
    /// What is typed up to and with the last slash.
    pub dir_part: String,
    /// What is typed behind the last slash.
    pub file_part: String,
    /// The directory whose entries complete the path.
    pub dir_for_fs: String,
}

/// The path that is being typed, with a slash behind `~` and behind `$HOME`
/// where they stand alone.
pub open spec fn spec_typed_path(prefix: Seq<char>) -> Seq<char> {
    if prefix == "~"@ {
        "~/"@
    } else if prefix == "$HOME"@ {
        "$HOME/"@
    } else {
        prefix
    }
}

/// Whether `parts` are the parts of the local path `prefix`. What stands up
/// to the last slash names the directory, what follows it begins the name.
/// The directory is listed without the slashes at its end; it is `.` where
/// no directory is named, and `/` where nothing but slashes names it.
pub open spec fn spec_is_local_prefix(prefix: Seq<char>, parts: LocalPrefix) -> bool {
    let typed = spec_typed_path(prefix);
    let at = spec_rfind(typed, '/', typed.len() as int);
    &&& parts.dir_part@ == typed.take(at + 1)
    &&& parts.file_part@ == typed.skip(at + 1)
    &&& parts.dir_for_fs@ == if at < 0 {
        "."@
    } else if spec_trim_end_char(typed.take(at + 1), '/').len() == 0 {
        "/"@
    } else {
        spec_trim_end_char(typed.take(at + 1), '/')
    }
}

/// The parts of the local path that is being typed.
pub fn split_local_prefix(prefix: &str) -> (parts: LocalPrefix)
    ensures
        spec_is_local_prefix(prefix@, parts),
{
    let typed = if same_text(prefix, "~") {
        "~/".to_owned()
    } else if same_text(prefix, "$HOME") {
        "$HOME/".to_owned()
    } else {
        prefix.to_owned()
    };
    match rsplit_once(typed.as_str(), '/') {
        None => {
            proof {
                assert(typed@.take(0) =~= Seq::<char>::empty());
                assert(typed@.skip(0) =~= typed@);
            }
            LocalPrefix { dir_part: String::new(), file_part: typed, dir_for_fs: ".".to_owned() }
        },
        Some((head, tail)) => {
            let mut dir_part = head;
            dir_part.append("/");
            proof {
                reveal_strlit("/");
                let at = spec_rfind(typed@, '/', typed@.len() as int);
                crate::text::lemma_rfind(typed@, '/', typed@.len() as int);
                assert(dir_part@ =~= typed@.take(at + 1));
            }
            let trimmed = trim_end_char(dir_part.as_str(), '/');
            let dir_for_fs = if trimmed.as_str().is_empty() {
                "/".to_owned()
            } else {
                trimmed
            };
            LocalPrefix { dir_part, file_part: tail, dir_for_fs }
        },
    }
}

/// What a local entry completes the typed path to, if it fits: the
/// directory as typed and the name of the entry, with a slash behind it
/// where the entry is a directory. An entry fits where its name begins with
/// what is typed of the name.
pub fn local_pair(parts: &LocalPrefix, name: &str, is_dir: bool) -> (pair: Option<String>)
    ensures
        match pair {
            Some(text) => spec_starts_with(name@, parts.file_part@) && text@ == parts.dir_part@
                + name@ + if is_dir {
                "/"@
            } else {
                Seq::empty()
            },
            None => !spec_starts_with(name@, parts.file_part@),
        },
{
    if !starts_with(name, parts.file_part.as_str()) {
        return None;
    }
    let mut text = parts.dir_part.clone();
    text.append(name);
    if is_dir {
        text.append("/");
    }
    proof {
        assert(text@ =~= parts.dir_part@ + name@ + if is_dir {
            "/"@
        } else {
            Seq::empty()
        });
    }
    Some(text)
}

/// What the items of a listing are to completion: each item that has a
/// name, with whether it is a folder.
pub open spec fn spec_remote_entries(items: Seq<serde_json::Value>) -> Seq<(Seq<char>, bool)>
    decreases items.len(),
{
    if items.len() == 0 {
        Seq::empty()
    } else {
        let rest = spec_remote_entries(items.drop_last());
        match spec_member_string(items.last(), "name"@) {
            Some(name) => rest.push(
                (name, spec_member_string(items.last(), "type"@) == Some("folder"@)),
            ),
            None => rest,
        }
    }
}

/// What each entry holds.
pub open spec fn spec_entry_views(entries: Seq<RemoteEntry>) -> Seq<(Seq<char>, bool)> {
    entries.map_values(|e: RemoteEntry| (e.name@, e.is_dir))
}

/// Reads the entries of the remote folder from the answer to a listing: the
/// items of the member `items` that have a name, each a folder where its
/// member `type` says so. An answer that is no JSON document, or has no such
/// member, gives no entries.
pub fn read_remote_entries(body: &str) -> (entries: Vec<RemoteEntry>)
    ensures
        spec_entry_views(entries@) == match json_document(body@) {
            Some(document) => match spec_member_items(document, "items"@) {
                Some(items) => spec_remote_entries(items),
                None => Seq::empty(),
            },
            None => Seq::empty(),
        },
{
    let mut entries: Vec<RemoteEntry> = Vec::new();
    proof {
        assert(spec_entry_views(entries@) =~= Seq::<(Seq<char>, bool)>::empty());
    }
    match parse(body) {
        Err(_) => {},
        Ok(document) => match member_items(&document, "items") {
            None => {},
            Some(items) => {
                let mut k: usize = 0;
                proof {
                    assert(items@.take(0) =~= Seq::<serde_json::Value>::empty());
                }
                while k < items.len()
                    invariant
                        k <= items@.len(),
                        spec_entry_views(entries@) == spec_remote_entries(items@.take(k as int)),
                    decreases items@.len() - k,
                {
                    let ghost before = spec_entry_views(entries@);
                    proof {
                        let taken = items@.take(k + 1);
                        assert(taken.drop_last() =~= items@.take(k as int));
                        assert(taken.last() == items@[k as int]);
                    }
                    match member_string(&items[k], "name") {
                        None => {},
                        Some(name) => {
                            let is_dir = match member_string(&items[k], "type") {
                                Some(kind) => same_text(kind.as_str(), "folder"),
                                None => false,
                            };
                            entries.push(RemoteEntry { name, is_dir });
                            proof {
                                assert(spec_entry_views(entries@) =~= before.push(
                                    (name@, is_dir),
                                ));
                            }
                        },
                    }
                    k = k + 1;
                }
                proof {
                    assert(items@.take(k as int) =~= items@);
                }
            },
        },
    }
    entries
}

} // verus!
