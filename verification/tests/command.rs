use kvstore::command::{assemble, parse_command, recognize, Command, Verb};

fn s(text: &str) -> String {
    text.to_string()
}

fn list(items: &[&str]) -> Vec<String> {
    items.iter().map(|x| x.to_string()).collect()
}

#[test]
fn recognize_knows_the_ten_verbs() {
    assert_eq!(recognize(&s("SET")), Some(Verb::Put));
    assert_eq!(recognize(&s("GET")), Some(Verb::Get));
    assert_eq!(recognize(&s("REMOVE")), Some(Verb::Remove));
    assert_eq!(recognize(&s("KEYS")), Some(Verb::Keys));
    assert_eq!(recognize(&s("VALUES")), Some(Verb::Values));
    assert_eq!(recognize(&s("LIST")), Some(Verb::List));
    assert_eq!(recognize(&s("LEN")), Some(Verb::Len));
    assert_eq!(recognize(&s("CLEAR")), Some(Verb::Clear));
    assert_eq!(recognize(&s("HELP")), Some(Verb::Help));
    assert_eq!(recognize(&s("EXIT")), Some(Verb::Exit));
}

#[test]
fn recognize_refuses_everything_else() {
    assert_eq!(recognize(&s("")), None);
    assert_eq!(recognize(&s("set")), None);
    assert_eq!(recognize(&s("SETS")), None);
    assert_eq!(recognize(&s("SE")), None);
    assert_eq!(recognize(&s("DELETE")), None);
    assert_eq!(recognize(&s("QUIT")), None);
}

#[test]
fn assemble_counts_the_words() {
    assert_eq!(assemble(Some(Verb::Put), &list(&["SET"])), Command::Usage { verb: Verb::Put });
    assert_eq!(
        assemble(Some(Verb::Put), &list(&["SET", "k"])),
        Command::Usage { verb: Verb::Put }
    );
    assert_eq!(
        assemble(Some(Verb::Put), &list(&["SET", "k", "v"])),
        Command::Put { key: s("k"), value: s("v") }
    );
    assert_eq!(assemble(Some(Verb::Get), &list(&["GET"])), Command::Usage { verb: Verb::Get });
    assert_eq!(assemble(Some(Verb::Get), &list(&["GET", "k"])), Command::Get { key: s("k") });
    assert_eq!(
        assemble(Some(Verb::Remove), &list(&["REMOVE"])),
        Command::Usage { verb: Verb::Remove }
    );
    assert_eq!(
        assemble(Some(Verb::Remove), &list(&["REMOVE", "k"])),
        Command::Remove { key: s("k") }
    );
    assert_eq!(assemble(Some(Verb::Len), &list(&["LEN"])), Command::Len);
    assert_eq!(assemble(None, &list(&["what", "k"])), Command::Unknown { word: s("what") });
    assert_eq!(assemble(None, &Vec::new()), Command::Blank);
    assert_eq!(assemble(Some(Verb::Exit), &Vec::new()), Command::Blank);
}

#[test]
fn parse_blank_lines() {
    assert_eq!(parse_command(""), Command::Blank);
    assert_eq!(parse_command("   \t"), Command::Blank);
}

#[test]
fn parse_set_joins_the_value() {
    assert_eq!(
        parse_command("SET name Alice"),
        Command::Put { key: s("name"), value: s("Alice") }
    );
    assert_eq!(
        parse_command("SET full name John Smith"),
        Command::Put { key: s("full"), value: s("name John Smith") }
    );
    assert_eq!(
        parse_command("  set   k    a \t b   "),
        Command::Put { key: s("k"), value: s("a b") }
    );
}

#[test]
fn parse_reports_usage() {
    assert_eq!(parse_command("SET"), Command::Usage { verb: Verb::Put });
    assert_eq!(parse_command("SET onlykey"), Command::Usage { verb: Verb::Put });
    assert_eq!(parse_command("get"), Command::Usage { verb: Verb::Get });
    assert_eq!(parse_command("Remove"), Command::Usage { verb: Verb::Remove });
}

#[test]
fn parse_takes_further_words_as_they_come() {
    assert_eq!(parse_command("GET a b c"), Command::Get { key: s("a") });
    assert_eq!(parse_command("REMOVE a b"), Command::Remove { key: s("a") });
    assert_eq!(parse_command("KEYS now"), Command::Keys);
    assert_eq!(parse_command("EXIT please"), Command::Exit);
}

#[test]
fn parse_verbs_without_arguments() {
    assert_eq!(parse_command("KEYS"), Command::Keys);
    assert_eq!(parse_command("VALUES"), Command::Values);
    assert_eq!(parse_command("LIST"), Command::List);
    assert_eq!(parse_command("LEN"), Command::Len);
    assert_eq!(parse_command("CLEAR"), Command::Clear);
    assert_eq!(parse_command("HELP"), Command::Help);
    assert_eq!(parse_command("EXIT"), Command::Exit);
}

#[test]
fn parse_ignores_case_of_the_verb_only() {
    assert_eq!(parse_command("get Key"), Command::Get { key: s("Key") });
    assert_eq!(parse_command("gEt KEY"), Command::Get { key: s("KEY") });
    assert_eq!(parse_command("exit"), Command::Exit);
    assert_eq!(parse_command("Len"), Command::Len);
    assert_eq!(parse_command("set a B"), Command::Put { key: s("a"), value: s("B") });
    assert_eq!(parse_command("\u{17F}et a b"), Command::Put { key: s("a"), value: s("b") });
}

#[test]
fn parse_names_an_unknown_word_as_written() {
    assert_eq!(parse_command("FOO"), Command::Unknown { word: s("FOO") });
    assert_eq!(parse_command("foo bar"), Command::Unknown { word: s("foo") });
    assert_eq!(parse_command("Delete k"), Command::Unknown { word: s("Delete") });
    assert_eq!(parse_command("SETX k v"), Command::Unknown { word: s("SETX") });
}
