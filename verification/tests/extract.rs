use cli_pilot::completion::get_cli_command_from_prompt;

#[test]
fn fenced_block_yields_command() {
    let r = get_cli_command_from_prompt("```\nls -la\n```").unwrap();
    assert_eq!(r, "ls -la");
}

#[test]
fn surrounding_whitespace_is_trimmed() {
    let r = get_cli_command_from_prompt("  echo hi  ").unwrap();
    assert_eq!(r, "echo hi");
}

#[test]
fn empty_fenced_block_is_a_validation_failure() {
    let r = get_cli_command_from_prompt("```\n\n```");
    assert_eq!(r, Err("No command found in prompt".to_string()));
}

#[test]
fn blank_input_is_a_validation_failure() {
    let r = get_cli_command_from_prompt("   \n\t ");
    assert_eq!(r, Err("No command found in prompt".to_string()));
}

#[test]
fn newlines_inside_are_removed() {
    let r = get_cli_command_from_prompt("```\nfoo \\\nbar\n```").unwrap();
    assert_eq!(r, "foo \\bar");
}

#[test]
fn fenced_block_with_spaces_around() {
    let r = get_cli_command_from_prompt(" ```\nls -la\n``` ").unwrap();
    assert_eq!(r, "ls -la");
}

#[test]
fn extraction_is_idempotent_on_ordinary_text() {
    for raw in [
        "```\nls -la\n```",
        "  echo hi  ",
        "plain command",
        "```\ndu -sh *\n```",
        "no fence\nbut a newline",
    ] {
        let once = get_cli_command_from_prompt(raw).unwrap();
        let twice = get_cli_command_from_prompt(&once).unwrap();
        assert_eq!(twice, once);
    }
}

#[test]
fn one_fence_is_stripped_per_pass() {
    // A doubled fence loses one layer per pass, so this input is the kind the
    // idempotence law leaves out.
    let once = get_cli_command_from_prompt("`````` ls").unwrap();
    assert_eq!(once, "``` ls");
    let twice = get_cli_command_from_prompt(&once).unwrap();
    assert_eq!(twice, "ls");
}
