use aliyundrive::local_path::expand_local_path;
use aliyundrive::shell::{parse_command, read_command, Command, Usage};

fn words(list: &[&str]) -> Vec<String> {
    list.iter().map(|w| w.to_string()).collect()
}

fn text(t: &str) -> String {
    t.to_string()
}

#[test]
fn an_empty_line_asks_for_nothing() {
    assert_eq!(parse_command(&Vec::new()), Command::Nothing);
    assert_eq!(read_command(""), Command::Nothing);
    assert_eq!(read_command("   "), Command::Nothing);
}

#[test]
fn commands_without_arguments() {
    assert_eq!(read_command("help"), Command::Help);
    assert_eq!(read_command("exit"), Command::Exit);
    assert_eq!(read_command("quit"), Command::Exit);
    assert_eq!(read_command("login"), Command::Login);
    assert_eq!(read_command("pwd"), Command::Pwd);
    assert_eq!(read_command("lpwd"), Command::LocalPwd);
    assert_eq!(read_command("help me please"), Command::Help);
}

#[test]
fn listing_commands() {
    assert_eq!(read_command("ls"), Command::Ls { target: None });
    assert_eq!(read_command("ls docs/x"), Command::Ls { target: Some(text("docs/x")) });
    assert_eq!(read_command("lls"), Command::LocalLs { path: None });
    assert_eq!(read_command("lls ~/tmp"), Command::LocalLs { path: Some(text("~/tmp")) });
}

#[test]
fn commands_with_one_argument() {
    assert_eq!(read_command("cd docs"), Command::Cd { target: text("docs") });
    assert_eq!(read_command("lcd /tmp"), Command::LocalCd { path: text("/tmp") });
    assert_eq!(read_command("put a.bin"), Command::Put { local: text("a.bin") });
    assert_eq!(read_command("rm a.bin"), Command::Rm { name: text("a.bin") });
    assert_eq!(read_command("mkdir new"), Command::Mkdir { name: text("new") });
    assert_eq!(read_command("cd a b c"), Command::Cd { target: text("a") });
}

#[test]
fn get_takes_a_name_and_maybe_a_place() {
    assert_eq!(read_command("get a.bin"), Command::Get { name: text("a.bin"), local: None });
    assert_eq!(
        read_command("get a.bin /tmp/b.bin"),
        Command::Get { name: text("a.bin"), local: Some(text("/tmp/b.bin")) }
    );
}

#[test]
fn copy_and_move_take_two_arguments() {
    assert_eq!(
        read_command("cp a.bin docs/"),
        Command::Cp { name: text("a.bin"), target: text("docs/") }
    );
    assert_eq!(
        read_command("mv a.bin b.bin"),
        Command::Mv { name: text("a.bin"), target: text("b.bin") }
    );
    assert_eq!(read_command("cp a.bin"), Command::Usage(Usage::Cp));
    assert_eq!(read_command("mv"), Command::Usage(Usage::Mv));
}

#[test]
fn missing_arguments_show_the_usage() {
    assert_eq!(read_command("cd"), Command::Usage(Usage::Cd));
    assert_eq!(read_command("lcd"), Command::Usage(Usage::LocalCd));
    assert_eq!(read_command("put"), Command::Usage(Usage::Put));
    assert_eq!(read_command("get"), Command::Usage(Usage::Get));
    assert_eq!(read_command("rm"), Command::Usage(Usage::Rm));
    assert_eq!(read_command("mkdir"), Command::Usage(Usage::Mkdir));
}

#[test]
fn usage_texts() {
    assert_eq!(Usage::Cd.text(), "Usage: cd <folder>");
    assert_eq!(Usage::LocalCd.text(), "Usage: lcd <dir>");
    assert_eq!(Usage::Put.text(), "Usage: put <local_file>");
    assert_eq!(Usage::Get.text(), "Usage: get <filename> [local_path]");
    assert_eq!(Usage::Cp.text(), "Usage: cp <filename> <target>");
    assert_eq!(Usage::Mv.text(), "Usage: mv <filename> <target>");
    assert_eq!(Usage::Rm.text(), "Usage: rm <filename>");
    assert_eq!(Usage::Mkdir.text(), "Usage: mkdir <folder_name>");
}

#[test]
fn unknown_commands_are_named() {
    assert_eq!(read_command("frobnicate now"), Command::Unknown { name: text("frobnicate") });
    assert_eq!(read_command("LS"), Command::Unknown { name: text("LS") });
}

#[test]
fn quotes_keep_blanks_in_a_word() {
    assert_eq!(
        read_command("put \"my file.bin\""),
        Command::Put { local: text("my file.bin") }
    );
    assert_eq!(
        read_command("cp 'a b' c\\ d"),
        Command::Cp { name: text("a b"), target: text("c d") }
    );
}

#[test]
fn words_are_read_as_given() {
    assert_eq!(
        parse_command(&words(&["get", "a b", ""])),
        Command::Get { name: text("a b"), local: Some(text("")) }
    );
    assert_eq!(parse_command(&words(&["", "x"])), Command::Unknown { name: text("") });
}

#[test]
fn local_paths_are_expanded() {
    let home = Some("/home/u");
    assert_eq!(expand_local_path("", home), "");
    assert_eq!(expand_local_path("~", home), "/home/u");
    assert_eq!(expand_local_path("~/docs/a", home), "/home/u/docs/a");
    assert_eq!(expand_local_path("~/", home), "/home/u/");
    assert_eq!(expand_local_path("$HOME", home), "/home/u");
    assert_eq!(expand_local_path("$HOME/x", home), "/home/u/x");
    assert_eq!(expand_local_path("$HOME$HOME/x", home), "/home/u/x");
    assert_eq!(expand_local_path("~user", home), "~user");
    assert_eq!(expand_local_path("/abs/path", home), "/abs/path");
    assert_eq!(expand_local_path("rel/~/x", home), "rel/~/x");
}

#[test]
fn local_paths_stay_without_a_home() {
    assert_eq!(expand_local_path("~", None), "~");
    assert_eq!(expand_local_path("~/docs", None), "~/docs");
    assert_eq!(expand_local_path("$HOME/x", None), "$HOME/x");
    assert_eq!(expand_local_path("", None), "");
}
