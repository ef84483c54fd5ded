use vstd::prelude::*;

use crate::completion::{extracted, get_cli_command_from_prompt, CompletionResult, Prompt};
use crate::prompt::UserOption;
use crate::state::State;

verus! {

/// Where the interaction loop stands between events.
#[derive(Clone, Copy, Debug, PartialEq, Eq, Structural)]
pub enum Phase {
    AwaitingInstruction,
    Generating,
    Presenting,
    AwaitingRevision,
    Executing,
    Cancelled,
    Failed,
}

/// The interaction loop's whole condition: the conversation history plus the
/// phase the loop stands in.
pub struct Session {
    pub state: State,
    pub phase: Phase,
}

/// The mathematical image of a session: both logs as sequences of character
/// sequences, the environment facts, and the phase.
pub struct SessionView {
    pub prompts: Seq<Seq<char>>,
    pub commands: Seq<Seq<char>>,
    pub shell: Seq<char>,
    pub os: Seq<char>,
    pub phase: Phase,
}

impl View for Session {
    type V = SessionView;

    open spec fn view(&self) -> SessionView {
        SessionView {
            prompts: self.state.prompts_log.deep_view(),
            commands: self.state.command_log.deep_view(),
            shell: self.state.shell@,
            os: self.state.os@,
            phase: self.phase,
        }
    }
}

impl Session {
    /// A fresh session for the given environment: empty history, waiting for
    /// the operator's first instruction.
    pub fn new(shell: String, os: String) -> (r: Session)
        ensures
            r@.prompts.len() == 0,
            r@.commands.len() == 0,
            r@.shell == shell@,
            r@.os == os@,
            r@.phase == Phase::AwaitingInstruction,
    {
        Session { state: State::new(shell, os), phase: Phase::AwaitingInstruction }
    }

    /// Accepts an instruction from the operator — the session's first, or a
    /// revision — appending it to the prompt log; generation begins.
    pub fn submit_instruction(&mut self, instruction: String)
        requires
            old(self)@.phase == Phase::AwaitingInstruction || old(self)@.phase
                == Phase::AwaitingRevision,
        ensures
            final(self)@.prompts == old(self)@.prompts.push(instruction@),
            final(self)@.commands == old(self)@.commands,
            final(self)@.shell == old(self)@.shell,
            final(self)@.os == old(self)@.os,
            final(self)@.phase == Phase::Generating,
    {
        let ghost before = self.state.prompts_log.deep_view();
        let ghost entry = instruction@;
        self.state.prompts_log.push(instruction);
        proof {
            assert(self.state.prompts_log.deep_view() =~= before.push(entry));
        }
        self.phase = Phase::Generating;
    }

    /// The generation request for the present turn: an initial request when
    /// no command has been generated yet, else a revision of the latest
    /// command — always carrying the latest instruction and the session's
    /// shell and operating system.
    pub fn generation_request(&self) -> (r: Prompt)
        requires
            self@.phase == Phase::Generating,
            self@.prompts.len() > 0,
        ensures
            self@.commands.len() == 0 ==> (r matches Prompt::Command(shell, os, instruction)
                && shell@ == self@.shell && os@ == self@.os && instruction@
                == self@.prompts.last()),
            self@.commands.len() > 0 ==> (r matches Prompt::Revision(
                shell,
                os,
                instruction,
                command,
            ) && shell@ == self@.shell && os@ == self@.os && instruction@ == self@.prompts.last()
                && command@ == self@.commands.last()),
    {
        let instruction = self.state.prompts_log[self.state.prompts_log.len() - 1].clone();
        if self.state.command_log.len() == 0 {
            Prompt::Command(self.state.shell.clone(), self.state.os.clone(), instruction)
        } else {
            let previous = self.state.command_log[self.state.command_log.len() - 1].clone();
            Prompt::Revision(
                self.state.shell.clone(),
                self.state.os.clone(),
                instruction,
                previous,
            )
        }
    }

    /// Applies the classified outcome of the turn's completion request. On a
    /// usable completion the extracted command joins the command log and is
    /// returned, and the loop presents it. On completion text that reduces
    /// to nothing the loop returns to revision with nothing appended. On any
    /// classified failure the loop fails with nothing appended; the error
    /// returned is the outcome's report.
    pub fn apply_outcome(&mut self, outcome: CompletionResult) -> (r: Result<String, String>)
        requires
            old(self)@.phase == Phase::Generating,
        ensures
            final(self)@.prompts == old(self)@.prompts,
            final(self)@.shell == old(self)@.shell,
            final(self)@.os == old(self)@.os,
            match outcome {
                CompletionResult::Success(p) => if p.choices@.len() > 0 && extracted(
                    p.choices@[0].message.content@,
                ).len() > 0 {
                    &&& r matches Ok(c) && c@ == extracted(p.choices@[0].message.content@)
                    &&& final(self)@.commands == old(self)@.commands.push(
                        extracted(p.choices@[0].message.content@),
                    )
                    &&& final(self)@.phase == Phase::Presenting
                } else if p.choices@.len() > 0 {
                    &&& r matches Err(e) && e@ == "No command found in prompt"@
                    &&& final(self)@.commands == old(self)@.commands
                    &&& final(self)@.phase == Phase::AwaitingRevision
                } else {
                    &&& r matches Err(e) && e@ == "Failed to parse response from OpenAI API"@
                    &&& final(self)@.commands == old(self)@.commands
                    &&& final(self)@.phase == Phase::Failed
                },
                _ => {
                    &&& r matches Err(e) && e@ == outcome.describe_spec()
                    &&& final(self)@.commands == old(self)@.commands
                    &&& final(self)@.phase == Phase::Failed
                },
            },
    {
        match outcome {
            CompletionResult::Success(p) => {
                if p.choices.len() == 0 {
                    self.phase = Phase::Failed;
                    return Err("Failed to parse response from OpenAI API".to_owned());
                }
                match get_cli_command_from_prompt(p.choices[0].message.content.as_str()) {
                    Ok(command) => {
                        let ghost before = self.state.command_log.deep_view();
                        let ghost entry = command@;
                        self.state.command_log.push(command.clone());
                        proof {
                            assert(self.state.command_log.deep_view() =~= before.push(entry));
                        }
                        self.phase = Phase::Presenting;
                        Ok(command)
                    },
                    Err(e) => {
                        self.phase = Phase::AwaitingRevision;
                        Err(e)
                    },
                }
            },
            other => {
                let report = other.describe();
                self.phase = Phase::Failed;
                Err(report)
            },
        }
    }

    /// Applies the operator's choice on a presented command: run it, revise
    /// the query, or cancel; an unrecognized choice changes nothing, and the
    /// same menu is offered again. The history never changes here.
    pub fn apply_choice(&mut self, choice: Option<UserOption>)
        requires
            old(self)@.phase == Phase::Presenting,
        ensures
            final(self)@.prompts == old(self)@.prompts,
            final(self)@.commands == old(self)@.commands,
            final(self)@.shell == old(self)@.shell,
            final(self)@.os == old(self)@.os,
            final(self)@.phase == match choice {
                Some(UserOption::Run) => Phase::Executing,
                Some(UserOption::Revise) => Phase::AwaitingRevision,
                Some(UserOption::Cancel) => Phase::Cancelled,
                None => Phase::Presenting,
            },
    {
        match choice {
            Some(UserOption::Run) => {
                self.phase = Phase::Executing;
            },
            Some(UserOption::Revise) => {
                self.phase = Phase::AwaitingRevision;
            },
            Some(UserOption::Cancel) => {
                self.phase = Phase::Cancelled;
            },
            None => {},
        }
    }
}

/// The image of one successful generation turn on a session view: the
/// instruction entered joins the prompt log, the command extracted from the
/// raw completion text joins the command log, and the command is presented.
/// This is exactly what `submit_instruction` followed by `apply_outcome` on
/// a usable completion ensure of the session.
pub open spec fn successful_turn(
    v: SessionView,
    instruction: Seq<char>,
    raw: Seq<char>,
) -> SessionView {
    SessionView {
        prompts: v.prompts.push(instruction),
        commands: v.commands.push(extracted(raw)),
        shell: v.shell,
        os: v.os,
        phase: Phase::Presenting,
    }
}

/// A whole run of successful turns, each carrying the instruction entered
/// and the raw completion text received for it.
pub open spec fn run_turns(v: SessionView, turns: Seq<(Seq<char>, Seq<char>)>) -> SessionView
    decreases turns.len(),
{
    if turns.len() == 0 {
        v
    } else {
        run_turns(successful_turn(v, turns[0].0, turns[0].1), turns.drop_first())
    }
}

/// Law: a run of successful turns grows each log by exactly one entry per
/// turn and never touches the head of the prompt log.
pub proof fn lemma_run_turns_counts(v: SessionView, turns: Seq<(Seq<char>, Seq<char>)>)
    ensures
        run_turns(v, turns).prompts.len() == v.prompts.len() + turns.len(),
        run_turns(v, turns).commands.len() == v.commands.len() + turns.len(),
        v.prompts.len() > 0 ==> run_turns(v, turns).prompts[0] == v.prompts[0],
        v.prompts.len() == 0 && turns.len() > 0 ==> run_turns(v, turns).prompts[0] == turns[0].0,
    decreases turns.len(),
{
    if turns.len() > 0 {
        lemma_run_turns_counts(successful_turn(v, turns[0].0, turns[0].1), turns.drop_first());
    }
}

/// Law: a session that went through exactly its successful generation turns,
/// starting from an empty history, holds one prompt and one command per
/// turn, and the session's initial instruction still heads the prompt log.
pub proof fn lemma_session_counts(v: SessionView, turns: Seq<(Seq<char>, Seq<char>)>)
    requires
        v.prompts.len() == 0,
        v.commands.len() == 0,
    ensures
        run_turns(v, turns).prompts.len() == turns.len(),
        run_turns(v, turns).commands.len() == turns.len(),
        turns.len() > 0 ==> run_turns(v, turns).prompts[0] == turns[0].0,
{
    lemma_run_turns_counts(v, turns);
}

} // verus!
