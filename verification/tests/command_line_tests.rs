use subtask::tokenize;

#[test]
fn splits_executable_and_arguments() {
    let tokens = tokenize("npm run start --workspace=users");
    assert_eq!(tokens, vec!["npm", "run", "start", "--workspace=users"]);
}

#[test]
fn single_token_has_no_arguments() {
    let tokens = tokenize("server");
    assert_eq!(tokens, vec!["server"]);
}

#[test]
fn empty_command_has_no_tokens() {
    assert_eq!(tokenize("").len(), 0);
}

#[test]
fn blank_command_has_no_tokens() {
    assert_eq!(tokenize("   ").len(), 0);
}

#[test]
fn repeated_spaces_separate_like_one() {
    let tokens = tokenize("  sh   -c   exit  ");
    assert_eq!(tokens, vec!["sh", "-c", "exit"]);
}
