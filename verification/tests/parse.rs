use delay_timer::error::CommandChildError;
use delay_timer::utils::parse::shell_command::{
    parse_pipeline,
    _remove_angle_bracket_command, parse_command_stage, redirect_target, split_pipeline,
    split_whitespace, trim,
};

#[test]
fn pipeline_is_split_at_each_pipe() {
    let commands = split_pipeline("  ls -l | grep rs | wc -l \n");
    assert_eq!(commands, vec!["ls -l", "grep rs", "wc -l"]);
    assert_eq!(split_pipeline("echo a|b"), vec!["echo a|b"]);
    assert_eq!(split_pipeline(""), vec![""]);
}

#[test]
fn stage_reads_program_and_arguments() {
    let stage = parse_command_stage("  ls   -l\t-a ").unwrap();
    assert_eq!(stage.program, "ls");
    assert_eq!(stage.args, vec!["-l", "-a"]);
    assert!(stage.redirect.is_none());
}

#[test]
fn stage_reads_redirections() {
    let stage = parse_command_stage("echo hello >> out.txt").unwrap();
    assert_eq!(stage.program, "echo");
    assert_eq!(stage.args, vec!["hello"]);
    let redirect = stage.redirect.unwrap();
    assert!(redirect.append);
    assert_eq!(redirect.filename, "out.txt");

    let stage = parse_command_stage("date > now.log").unwrap();
    assert_eq!(stage.program, "date");
    assert!(stage.args.is_empty());
    let redirect = stage.redirect.unwrap();
    assert!(!redirect.append);
    assert_eq!(redirect.filename, "now.log");
}

#[test]
fn empty_stage_is_refused() {
    for command in ["   ", "> only.txt", ""] {
        match parse_command_stage(command) {
            Err(CommandChildError::DisCondition(message)) => {
                assert_eq!(message, "Without next part")
            }
            _ => panic!("a stage without words is refused"),
        }
    }
}

#[test]
fn redirection_ending_the_command_names_the_last_piece() {
    let redirect = redirect_target("ls >>").unwrap();
    assert!(redirect.append);
    assert_eq!(redirect.filename, "ls >>");
    assert!(redirect_target("ls -l").is_none());
}

#[test]
fn text_before_the_angle_bracket() {
    assert_eq!(_remove_angle_bracket_command(" echo hi > f ").unwrap(), "echo hi ");
    assert_eq!(_remove_angle_bracket_command("no sign").unwrap(), "no sign");
}

#[test]
fn words_and_trimming_follow_unicode_white_space() {
    assert_eq!(trim("\u{3000} a b \u{a0}"), "a b");
    assert_eq!(split_whitespace(" a\u{2003}b  c "), vec!["a", "b", "c"]);
    assert!(split_whitespace(" \t ").is_empty());
}

#[test]
fn pipeline_stops_at_the_first_redirection() {
    let stages = parse_pipeline("ls -l | grep a > out.txt | wc -l").unwrap();
    assert_eq!(stages.len(), 2);
    assert_eq!(stages[0].program, "ls");
    assert_eq!(stages[0].args, vec!["-l".to_owned()]);
    assert_eq!(stages[1].program, "grep");
    assert_eq!(stages[1].redirect.as_ref().unwrap().filename, "out.txt");
    // A stage after the redirection is not read: its emptiness does not matter.
    assert_eq!(parse_pipeline("echo x >> log.txt |  | ").unwrap().len(), 1);
    let stages = parse_pipeline("cat a | sort | uniq").unwrap();
    assert_eq!(stages.len(), 3);
    assert!(stages.iter().all(|s| s.redirect.is_none()));
}

#[test]
fn pipeline_with_an_empty_stage_is_refused() {
    match parse_pipeline("ls |  | wc") {
        Err(CommandChildError::DisCondition(message)) => assert_eq!(message, "Without next part"),
        _ => panic!("an empty stage refuses the line"),
    }
}
