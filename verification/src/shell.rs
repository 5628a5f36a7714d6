//! The commands of the shell: what a line that the user types asks for.

use vstd::prelude::*;
use vstd::string::*;
use crate::text::{same_text, spec_holds_text, spec_texts};

verus! {

/// The words that `shlex::Shlex` cuts the line into, as a shell would cut
/// it: blanks part the words, quotes and backslashes keep a blank in a word.
pub uninterp spec fn shell_words(line: Seq<char>) -> Seq<Seq<char>>;

/// Collects the words that the iterator `shlex::Shlex::new(line)` yields.
/// Believed: the words depend on the line alone, so that they can be named
/// `shell_words(line)`.
#[verifier::external_body]
pub(crate) fn words_of(line: &str) -> (words: Vec<String>)
    ensures
        spec_texts(words@) == shell_words(line@),
{
    shlex::Shlex::new(line).collect()
}

/// A command that was given too few arguments.
#[derive(Clone, Copy, Debug, PartialEq, Eq, Structural)]
pub enum Usage {
    Cd,
    LocalCd,
    Put,
    Get,
    Cp,
    Mv,
    Rm,
    Mkdir,
}

/// What a line asks for.
#[derive(Clone, Debug, PartialEq, Eq)]
pub enum Command {
    /// The line holds no word.
    Nothing,
    Help,
    Exit,
    Login,
    /// Show the remote directory the shell is in.
    Pwd,
    /// Show the local directory the shell is in.
    LocalPwd,
    /// List a remote directory: the one named, or the one the shell is in.
    Ls { target: Option<String> },
    Mkdir { name: String },
    Cd { target: String },
    /// List a local directory: the one named, or the one the shell is in.
    LocalLs { path: Option<String> },
    LocalCd { path: String },
    Put { local: String },
    /// Download the file `name` to `local`, or into the local directory the
    /// shell is in.
    Get { name: String, local: Option<String> },
    Cp { name: String, target: String },
    Mv { name: String, target: String },
    Rm { name: String },
    /// The command lacks an argument: show how it is used.
    Usage(Usage),
    /// No command of that name.
    Unknown { name: String },
}

/// The word at `i`, if the line has that many words.
pub open spec fn spec_word(words: Seq<Seq<char>>, i: int) -> Option<Seq<char>> {
    if 0 <= i < words.len() {
        Some(words[i])
    } else {
        None
    }
}

/// Whether `command` is what the words ask for. The first word names the
/// command and the words after it are its arguments; arguments beyond those
/// that a command takes are not looked at. `exit` and `quit` are one command.
pub open spec fn spec_is_command(words: Seq<Seq<char>>, command: Command) -> bool {
    if words.len() == 0 {
        command is Nothing
    } else if words[0] == "help"@ {
        command is Help
    } else if words[0] == "exit"@ || words[0] == "quit"@ {
        command is Exit
    } else if words[0] == "login"@ {
        command is Login
    } else if words[0] == "pwd"@ {
        command is Pwd
    } else if words[0] == "lpwd"@ {
        command is LocalPwd
    } else if words[0] == "ls"@ {
        command matches Command::Ls { target } && spec_holds_text(target, spec_word(words, 1))
    } else if words[0] == "lls"@ {
        command matches Command::LocalLs { path } && spec_holds_text(path, spec_word(words, 1))
    } else if words[0] == "mkdir"@ {
        if words.len() < 2 {
            command == Command::Usage(Usage::Mkdir)
        } else {
            command matches Command::Mkdir { name } && name@ == words[1]
        }
    } else if words[0] == "cd"@ {
        if words.len() < 2 {
            command == Command::Usage(Usage::Cd)
        } else {
            command matches Command::Cd { target } && target@ == words[1]
        }
    } else if words[0] == "lcd"@ {
        if words.len() < 2 {
            command == Command::Usage(Usage::LocalCd)
        } else {
            command matches Command::LocalCd { path } && path@ == words[1]
        }
    } else if words[0] == "put"@ {
        if words.len() < 2 {
            command == Command::Usage(Usage::Put)
        } else {
            command matches Command::Put { local } && local@ == words[1]
        }
    } else if words[0] == "get"@ {
        if words.len() < 2 {
            command == Command::Usage(Usage::Get)
        } else {
            command matches Command::Get { name, local } && name@ == words[1] && spec_holds_text(
                local,
                spec_word(words, 2),
            )
        }
    } else if words[0] == "cp"@ {
        if words.len() < 3 {
            command == Command::Usage(Usage::Cp)
        } else {
            command matches Command::Cp { name, target } && name@ == words[1] && target@
                == words[2]
        }
    } else if words[0] == "mv"@ {
        if words.len() < 3 {
            command == Command::Usage(Usage::Mv)
        } else {
            command matches Command::Mv { name, target } && name@ == words[1] && target@
                == words[2]
        }
    } else if words[0] == "rm"@ {
        if words.len() < 2 {
            command == Command::Usage(Usage::Rm)
        } else {
            command matches Command::Rm { name } && name@ == words[1]
        }
    } else {
        command matches Command::Unknown { name } && name@ == words[0]
    }
}

/// A copy of the word at `i`, if there are that many words.
fn word_at(words: &Vec<String>, i: usize) -> (word: Option<String>)
    ensures
        spec_holds_text(word, spec_word(spec_texts(words@), i as int)),
        word matches Some(w) ==> i < words@.len() && w == words@[i as int],
{
    if i < words.len() {
        Some(words[i].clone())
    } else {
        None
    }
}

/// What the words ask for.
pub fn parse_command(words: &Vec<String>) -> (command: Command)
    ensures
        spec_is_command(spec_texts(words@), command),
{
    if words.len() == 0 {
        return Command::Nothing;
    }
    let name = words[0].as_str();
    let first = word_at(words, 1);
    let second = word_at(words, 2);
    if same_text(name, "help") {
        Command::Help
    } else if same_text(name, "exit") || same_text(name, "quit") {
        Command::Exit
    } else if same_text(name, "login") {
        Command::Login
    } else if same_text(name, "pwd") {
        Command::Pwd
    } else if same_text(name, "lpwd") {
        Command::LocalPwd
    } else if same_text(name, "ls") {
        Command::Ls { target: first }
    } else if same_text(name, "lls") {
        Command::LocalLs { path: first }
    } else if same_text(name, "mkdir") {
        match first {
            Some(name) => Command::Mkdir { name },
            None => Command::Usage(Usage::Mkdir),
        }
    } else if same_text(name, "cd") {
        match first {
            Some(target) => Command::Cd { target },
            None => Command::Usage(Usage::Cd),
        }
    } else if same_text(name, "lcd") {
        match first {
            Some(path) => Command::LocalCd { path },
            None => Command::Usage(Usage::LocalCd),
        }
    } else if same_text(name, "put") {
        match first {
            Some(local) => Command::Put { local },
            None => Command::Usage(Usage::Put),
        }
    } else if same_text(name, "get") {
        match first {
            Some(name) => Command::Get { name, local: second },
            None => Command::Usage(Usage::Get),
        }
    } else if same_text(name, "cp") {
        match (first, second) {
            (Some(name), Some(target)) => Command::Cp { name, target },
            _ => Command::Usage(Usage::Cp),
        }
    } else if same_text(name, "mv") {
        match (first, second) {
            (Some(name), Some(target)) => Command::Mv { name, target },
            _ => Command::Usage(Usage::Mv),
        }
    } else if same_text(name, "rm") {
        match first {
            Some(name) => Command::Rm { name },
            None => Command::Usage(Usage::Rm),
        }
    } else {
        Command::Unknown { name: words[0].clone() }
    }
}

/// What a line asks for: the line is cut into words as a shell would cut it,
/// and the words are read as a command.
pub fn read_command(line: &str) -> (command: Command)
    ensures
        spec_is_command(shell_words(line@), command),
{
    let words = words_of(line);
    parse_command(&words)
}

impl Usage {
    /// How the command is used.
    pub open spec fn spec_text(self) -> Seq<char> {
        match self {
            Usage::Cd => "Usage: cd <folder>"@,
            Usage::LocalCd => "Usage: lcd <dir>"@,
            Usage::Put => "Usage: put <local_file>"@,
            Usage::Get => "Usage: get <filename> [local_path]"@,
            Usage::Cp => "Usage: cp <filename> <target>"@,
            Usage::Mv => "Usage: mv <filename> <target>"@,
            Usage::Rm => "Usage: rm <filename>"@,
            Usage::Mkdir => "Usage: mkdir <folder_name>"@,
        }
    }

    /// How the command is used.
    pub fn text(self) -> (text: &'static str)
        ensures
            text@ == self.spec_text(),
    {
        match self {
            Usage::Cd => "Usage: cd <folder>",
            Usage::LocalCd => "Usage: lcd <dir>",
            Usage::Put => "Usage: put <local_file>",
            Usage::Get => "Usage: get <filename> [local_path]",
            Usage::Cp => "Usage: cp <filename> <target>",
            Usage::Mv => "Usage: mv <filename> <target>",
            Usage::Rm => "Usage: rm <filename>",
            Usage::Mkdir => "Usage: mkdir <folder_name>",
        }
    }
}

} // verus!
