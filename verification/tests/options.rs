use rcli::{verify_input_file, verify_output_file, InputFacts, OutputFacts};

#[test]
fn test_verify_input_file() {
    let there = InputFacts { exists: true, is_file: true };
    let absent = InputFacts { exists: false, is_file: false };
    assert_eq!(verify_input_file("-", &absent), Ok("-".to_string()));
    assert_eq!(verify_input_file("Cargo.toml", &there), Ok("Cargo.toml".to_string()));
    assert_eq!(
        verify_input_file("not_exist", &absent),
        Err("file is not exists: not_exist".to_string())
    );
}

#[test]
fn an_input_must_be_a_file() {
    let directory = InputFacts { exists: true, is_file: false };
    assert_eq!(verify_input_file("src", &directory), Err("path is not a file: src".to_string()));
    assert_eq!(verify_input_file("-", &directory), Ok("-".to_string()));
}

fn output_facts(is_dir: bool, parent: Option<&str>, exists: bool, parent_is_dir: bool) -> OutputFacts {
    OutputFacts {
        is_dir,
        parent: parent.map(|p| p.to_string()),
        parent_exists: exists,
        parent_is_dir,
    }
}

#[test]
fn an_output_must_not_be_a_directory() {
    assert_eq!(
        verify_output_file("out", &output_facts(true, Some(""), true, true)),
        Err("path out is a directory".to_string())
    );
}

#[test]
fn an_output_needs_its_directory() {
    assert_eq!(
        verify_output_file("gone/out.json", &output_facts(false, Some("gone"), false, false)),
        Err("output drectory gone is not exists".to_string())
    );
    assert_eq!(
        verify_output_file("file/out.json", &output_facts(false, Some("file"), true, false)),
        Err("file/out.json the parent is not drectory".to_string())
    );
    assert_eq!(
        verify_output_file("dir/out.json", &output_facts(false, Some("dir"), true, true)),
        Ok("dir/out.json".to_string())
    );
}

#[test]
fn an_output_without_a_directory_is_taken() {
    assert_eq!(
        verify_output_file("out.json", &output_facts(false, Some(""), false, false)),
        Ok("out.json".to_string())
    );
    assert_eq!(
        verify_output_file("/", &output_facts(false, None, false, false)),
        Ok("/".to_string())
    );
}

#[test]
fn a_directory_must_be_there() {
    use_dir("keys", true, true, Ok("keys".to_string()));
    use_dir("keys", true, false, Err("Path does not exist or is not a directory".to_string()));
    use_dir("keys", false, false, Err("Path does not exist or is not a directory".to_string()));
}

fn use_dir(path: &str, exists: bool, is_dir: bool, expected: Result<String, String>) {
    assert_eq!(rcli::verify_path(path, &rcli::DirFacts { exists, is_dir }), expected);
}

#[test]
fn serve_options_carry_directory_and_port() {
    let rcli::HttpSubCommand::Serve(opt) =
        rcli::HttpSubCommand::Serve(rcli::HttpServeOpt { dir: ".".to_string(), port: 8080 });
    assert_eq!(opt.dir, ".");
    assert_eq!(opt.port, 8080);
}
