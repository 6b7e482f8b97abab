use time_quiz::split_target_command;

#[test]
fn no_extra_arguments_means_nothing_to_run() {
    let args: Vec<String> = vec!["quiz".to_string()];
    assert!(split_target_command(&args).is_none());
    let empty: Vec<String> = Vec::new();
    assert!(split_target_command(&empty).is_none());
}

#[test]
fn echo_hi_becomes_command_and_argument() {
    let args: Vec<String> = vec!["quiz".to_string(), "echo".to_string(), "hi".to_string()];
    let (program, rest) = split_target_command(&args).unwrap();
    assert_eq!(program, "echo");
    assert_eq!(rest, vec!["hi".to_string()]);
}

#[test]
fn command_without_arguments_gets_an_empty_list() {
    let args: Vec<String> = vec!["quiz".to_string(), "ls".to_string()];
    let (program, rest) = split_target_command(&args).unwrap();
    assert_eq!(program, "ls");
    assert!(rest.is_empty());
}

#[test]
fn all_remaining_arguments_are_kept_in_order() {
    let args: Vec<String> = vec![
        "quiz".to_string(),
        "cp".to_string(),
        "-r".to_string(),
        "a".to_string(),
        "b".to_string(),
    ];
    let (program, rest) = split_target_command(&args).unwrap();
    assert_eq!(program, "cp");
    assert_eq!(rest, vec!["-r".to_string(), "a".to_string(), "b".to_string()]);
}
