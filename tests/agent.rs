use crab::agent::{build_system_prompt, AbortReason, Agent, Config, Phase, DEFAULT_MAX_ITERATIONS};
use crab::message::{Message, Role};

fn config(user_msg: &str, history: Vec<Message>, max_iterations: u64) -> Config {
    Config {
        agent_name: "HermitClaw".to_string(),
        agent_role: "General Assistant".to_string(),
        docker_image: "hermit/base".to_string(),
        user_msg: user_msg.to_string(),
        history,
        max_tokens: 1000,
        max_iterations,
    }
}

#[test]
fn new_agent_builds_initial_history() {
    let seed = vec![
        Message::new(Role::User, "hi".to_string()),
        Message::new(Role::Assistant, "hello".to_string()),
    ];
    let agent = Agent::new(config("list files", seed, 5));
    let h = agent.history().messages();
    assert_eq!(h.len(), 4);
    assert_eq!(h[0].role, Role::System);
    assert_eq!(
        h[0].content,
        build_system_prompt("HermitClaw", "General Assistant", "hermit/base")
    );
    assert_eq!((h[1].role, h[1].content.as_str()), (Role::User, "hi"));
    assert_eq!((h[2].role, h[2].content.as_str()), (Role::Assistant, "hello"));
    assert_eq!((h[3].role, h[3].content.as_str()), (Role::User, "list files"));
    assert_eq!(agent.iterations(), 0);
    assert_eq!(agent.max_tokens(), 1000);
    assert!(matches!(agent.phase(), Phase::AwaitingCompletion));
}

#[test]
fn system_prompt_names_agent_and_markers() {
    let p = build_system_prompt("Bot", "Tester", "img/x");
    assert_eq!(
        p,
        "You are Bot, acting as Tester. Commands run in the environment img/x. \
To run a command, reply with it between <command> and </command>. \
When you have the final answer, reply without a command block."
    );
}

#[test]
fn final_answer_finishes_without_appending() {
    let mut agent = Agent::new(config("hello", vec![], 5));
    agent.on_completion(Ok("Just an answer.".to_string()));
    assert!(matches!(agent.phase(), Phase::Finished(a) if a == "Just an answer."));
    assert_eq!(agent.history().len(), 2);
    assert_eq!(agent.iterations(), 0);
}

#[test]
fn list_files_scenario() {
    let mut agent = Agent::new(config("list files", vec![], DEFAULT_MAX_ITERATIONS));
    agent.on_completion(Ok("<command>ls</command>".to_string()));
    let cmd = match agent.phase() {
        Phase::Executing(c) => c.clone(),
        _ => panic!("expected a command"),
    };
    assert_eq!(cmd, "ls");
    assert_eq!(agent.iterations(), 0);
    agent.on_execution(Ok("a.txt\nb.txt".to_string()));
    assert_eq!(agent.iterations(), 1);
    assert!(matches!(agent.phase(), Phase::AwaitingCompletion));
    let h = agent.history().messages();
    assert_eq!(h.len(), 4);
    assert_eq!((h[2].role, h[2].content.as_str()), (Role::Assistant, "<command>ls</command>"));
    assert_eq!((h[3].role, h[3].content.as_str()), (Role::User, "COMMAND_OUTPUT:\na.txt\nb.txt"));
    agent.on_completion(Ok("Files are a.txt and b.txt".to_string()));
    assert!(matches!(agent.phase(), Phase::Finished(a) if a == "Files are a.txt and b.txt"));
    assert_eq!(agent.iterations(), 1);
    assert_eq!(agent.history().len(), 4);
}

#[test]
fn always_command_aborts_after_exactly_five() {
    let mut agent = Agent::new(config("loop", vec![], 5));
    let mut executions = 0;
    while matches!(agent.phase(), Phase::AwaitingCompletion) {
        agent.on_completion(Ok("<command>true</command>".to_string()));
        assert!(matches!(agent.phase(), Phase::Executing(_)));
        agent.on_execution(Ok(String::new()));
        executions += 1;
        assert!(executions <= 5);
    }
    assert_eq!(executions, 5);
    assert_eq!(agent.iterations(), 5);
    assert!(matches!(agent.phase(), Phase::Aborted(AbortReason::MaxIterations)));
}

#[test]
fn transport_failure_on_first_call_aborts() {
    let mut agent = Agent::new(config("hi", vec![], 5));
    agent.on_completion(Err("connection refused".to_string()));
    assert!(matches!(agent.phase(), Phase::Aborted(AbortReason::Transport(e)) if e == "connection refused"));
    assert_eq!(agent.iterations(), 0);
    assert_eq!(agent.history().len(), 2);
}

#[test]
fn execution_failure_is_reported_and_loop_continues() {
    let mut agent = Agent::new(config("hi", vec![], 5));
    agent.on_completion(Ok("<command>bad</command>".to_string()));
    agent.on_execution(Err("exit status 127".to_string()));
    assert!(matches!(agent.phase(), Phase::AwaitingCompletion));
    assert_eq!(agent.iterations(), 1);
    let h = agent.history().messages();
    assert_eq!((h[3].role, h[3].content.as_str()), (Role::User, "ERROR: exit status 127"));
}

#[test]
fn cap_of_one_aborts_after_first_command() {
    let mut agent = Agent::new(config("hi", vec![], 1));
    agent.on_completion(Ok("<command>ls</command>".to_string()));
    agent.on_execution(Ok("x".to_string()));
    assert!(matches!(agent.phase(), Phase::Aborted(AbortReason::MaxIterations)));
    assert_eq!(agent.iterations(), 1);
}
