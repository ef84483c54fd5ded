use cli_pilot::completion::{
    ChatCompletionResponse, Choice, CompletionResult, Message, Prompt, Usage,
};
use cli_pilot::prompt::UserOption;
use cli_pilot::session::{Phase, Session};
use cli_pilot::state::{shell_from_path, State};

fn success_with(content: &str) -> CompletionResult {
    CompletionResult::Success(ChatCompletionResponse {
        id: "cmpl-1".into(),
        object: "chat.completion".into(),
        created: 0,
        model: "gpt-3.5-turbo".into(),
        usage: Usage { prompt_tokens: 1, completion_tokens: 1, total_tokens: 2 },
        choices: vec![Choice {
            message: Message { role: "assistant".into(), content: content.into() },
            finish_reason: "stop".into(),
            index: 0,
        }],
    })
}

#[test]
fn fresh_state_is_empty() {
    let s = State::new("bash".into(), "linux".into());
    assert!(s.prompts_log.is_empty());
    assert!(s.command_log.is_empty());
    assert_eq!(s.shell, "bash");
    assert_eq!(s.os, "linux");
}

#[test]
fn shell_name_is_the_last_path_segment() {
    assert_eq!(shell_from_path("/bin/bash"), "bash");
    assert_eq!(shell_from_path("/usr/local/bin/zsh"), "zsh");
    assert_eq!(shell_from_path("fish"), "fish");
    assert_eq!(shell_from_path("/bin/"), "");
}

#[test]
fn run_choice_leads_to_execution() {
    let mut s = Session::new("bash".into(), "linux".into());
    s.submit_instruction("list files in this directory".into());
    let r = s.apply_outcome(success_with(" ```\nls -la\n``` "));
    assert_eq!(r.unwrap(), "ls -la");
    assert_eq!(s.phase, Phase::Presenting);
    s.apply_choice(Some(UserOption::Run));
    assert_eq!(s.phase, Phase::Executing);
    assert_eq!(s.state.command_log, vec!["ls -la".to_string()]);
}

#[test]
fn revision_request_carries_the_previous_command() {
    let mut s = Session::new("bash".into(), "linux".into());
    s.submit_instruction("list files".into());
    let first = s.generation_request();
    match first {
        Prompt::Command(shell, os, instruction) => {
            assert_eq!(shell, "bash");
            assert_eq!(os, "linux");
            assert_eq!(instruction, "list files");
        }
        _ => panic!("first request must be the initial mode"),
    }
    s.apply_outcome(success_with("```\nls -a\n```")).unwrap();
    s.apply_choice(Some(UserOption::Revise));
    s.submit_instruction("only hidden ones".into());
    let second = s.generation_request();
    match second {
        Prompt::Revision(shell, os, instruction, previous) => {
            assert_eq!(shell, "bash");
            assert_eq!(os, "linux");
            assert_eq!(instruction, "only hidden ones");
            assert_eq!(previous, "ls -a");
        }
        _ => panic!("second request must be the revision mode"),
    }
}

#[test]
fn successful_turns_grow_both_logs_in_step() {
    let mut s = Session::new("zsh".into(), "macos".into());
    let turns = [
        ("list files", "```\nls\n```"),
        ("long format", "```\nls -l\n```"),
        ("hidden too", "```\nls -la\n```"),
    ];
    for (i, (instruction, raw)) in turns.iter().enumerate() {
        s.submit_instruction(instruction.to_string());
        s.apply_outcome(success_with(raw)).unwrap();
        assert_eq!(s.state.prompts_log.len(), i + 1);
        assert_eq!(s.state.command_log.len(), i + 1);
        if s.phase == Phase::Presenting && i + 1 < turns.len() {
            s.apply_choice(Some(UserOption::Revise));
        }
    }
    assert_eq!(s.state.prompts_log[0], "list files");
    assert_eq!(s.state.command_log, vec!["ls", "ls -l", "ls -la"]);
}

#[test]
fn empty_extraction_returns_to_revision_without_appending() {
    let mut s = Session::new("bash".into(), "linux".into());
    s.submit_instruction("do nothing".into());
    let before = s.state.command_log.len();
    let r = s.apply_outcome(success_with("```\n\n```"));
    assert_eq!(r, Err("No command found in prompt".to_string()));
    assert_eq!(s.state.command_log.len(), before);
    assert_eq!(s.phase, Phase::AwaitingRevision);
}

#[test]
fn classified_failures_never_append_a_command() {
    let failures = [
        CompletionResult::ServiceRejection {
            status: 429,
            message: "rate limited".into(),
            code: Some("rate_limit".into()),
        },
        CompletionResult::ConnectivityFailure("connection refused".into()),
        CompletionResult::ParseFailure("not json".into()),
    ];
    for failure in failures {
        let mut s = Session::new("bash".into(), "linux".into());
        s.submit_instruction("list files".into());
        let before = s.state.command_log.len();
        let r = s.apply_outcome(failure);
        assert!(r.is_err());
        assert_eq!(s.state.command_log.len(), before);
        assert_eq!(s.phase, Phase::Failed);
    }
}

#[test]
fn unknown_menu_choice_changes_nothing() {
    let mut s = Session::new("bash".into(), "linux".into());
    s.submit_instruction("list files".into());
    s.apply_outcome(success_with("ls")).unwrap();
    s.apply_choice(None);
    assert_eq!(s.phase, Phase::Presenting);
    s.apply_choice(Some(UserOption::Cancel));
    assert_eq!(s.phase, Phase::Cancelled);
}

#[test]
fn response_without_candidates_is_fatal() {
    let mut s = Session::new("bash".into(), "linux".into());
    s.submit_instruction("list files".into());
    let empty = CompletionResult::Success(ChatCompletionResponse {
        id: "cmpl-2".into(),
        object: "chat.completion".into(),
        created: 0,
        model: "gpt-3.5-turbo".into(),
        usage: Usage { prompt_tokens: 1, completion_tokens: 0, total_tokens: 1 },
        choices: vec![],
    });
    let r = s.apply_outcome(empty);
    assert_eq!(r, Err("Failed to parse response from OpenAI API".to_string()));
    assert_eq!(s.phase, Phase::Failed);
    assert!(s.state.command_log.is_empty());
}
