use vstd::prelude::*;
use crate::extract::{command_of, extract_command, find_from, lemma_no_marker_no_command, open_marker};
use crate::message::{messages_view, History, Message, MessageModel, Role};

verus! {

/// The agent's instructions to the model: who it is, where its commands run,
/// and how to mark a command in a reply.
pub open spec fn system_prompt_spec(name: Seq<char>, role: Seq<char>, environment: Seq<char>) -> Seq<
    char,
> {
    "You are "@ + name + ", acting as "@ + role + ". Commands run in the environment "@
        + environment + ". To run a command, reply with it between <command> and </command>. "@
        + "When you have the final answer, reply without a command block."@
}

/// Builds the system prompt for an agent.
pub fn build_system_prompt(agent_name: &str, agent_role: &str, environment: &str) -> (r: String)
    ensures
        r@ == system_prompt_spec(agent_name@, agent_role@, environment@),
{
    let mut r = String::from_str("You are ");
    r.append(agent_name);
    r.append(", acting as ");
    r.append(agent_role);
    r.append(". Commands run in the environment ");
    r.append(environment);
    r.append(". To run a command, reply with it between <command> and </command>. ");
    r.append("When you have the final answer, reply without a command block.");
    r
}

/// What a run is set up with.
pub struct Config {
    pub agent_name: String,
    pub agent_role: String,
    pub docker_image: String,
    pub user_msg: String,
    pub history: Vec<Message>,
    pub max_tokens: u32,
    pub max_iterations: u64,
}

/// The number of command cycles a run allows unless told otherwise.
pub const DEFAULT_MAX_ITERATIONS: u64 = 5;

/// Why a run stopped without an answer.
#[derive(Clone, Debug)]
pub enum AbortReason {
    /// The completion call failed, with this description.
    Transport(String),
    /// The run used up its command cycles.
    MaxIterations,
}

/// Where the control loop stands.
#[derive(Clone, Debug)]
pub enum Phase {
    /// The next step is a completion call on the whole history.
    AwaitingCompletion,
    /// The next step is to run this command.
    Executing(String),
    /// The run ended with this answer.
    Finished(String),
    /// The run ended without an answer.
    Aborted(AbortReason),
}

pub enum AbortModel {
    Transport(Seq<char>),
    MaxIterations,
}

pub enum PhaseModel {
    AwaitingCompletion,
    Executing(Seq<char>),
    Finished(Seq<char>),
    Aborted(AbortModel),
}

impl View for AbortReason {
    type V = AbortModel;

    open spec fn view(&self) -> AbortModel {
        match self {
            AbortReason::Transport(e) => AbortModel::Transport(e@),
            AbortReason::MaxIterations => AbortModel::MaxIterations,
        }
    }
}

impl View for Phase {
    type V = PhaseModel;

    open spec fn view(&self) -> PhaseModel {
        match self {
            Phase::AwaitingCompletion => PhaseModel::AwaitingCompletion,
            Phase::Executing(c) => PhaseModel::Executing(c@),
            Phase::Finished(a) => PhaseModel::Finished(a@),
            Phase::Aborted(r) => PhaseModel::Aborted(r@),
        }
    }
}

/// The mathematical state of a run.
pub struct AgentModel {
    pub history: Seq<MessageModel>,
    pub iterations: nat,
    pub max_iterations: nat,
    pub phase: PhaseModel,
}

/// The outcome of a completion call or of a command, as text.
pub open spec fn outcome_view(o: Result<String, String>) -> Result<Seq<char>, Seq<char>> {
    match o {
        Ok(t) => Ok(t@),
        Err(e) => Err(e@),
    }
}

/// The state a run starts in.
pub open spec fn initial_model(
    system_prompt: Seq<char>,
    seed: Seq<MessageModel>,
    user_msg: Seq<char>,
    max_iterations: nat,
) -> AgentModel {
    AgentModel {
        history: seq![MessageModel { role: Role::System, content: system_prompt }] + seed.push(
            MessageModel { role: Role::User, content: user_msg },
        ),
        iterations: 0,
        max_iterations,
        phase: PhaseModel::AwaitingCompletion,
    }
}

/// The state after a completion call returned `outcome`.
pub open spec fn completion_step(m: AgentModel, outcome: Result<Seq<char>, Seq<char>>) -> AgentModel {
    match outcome {
        Err(e) => AgentModel { phase: PhaseModel::Aborted(AbortModel::Transport(e)), ..m },
        Ok(reply) => match command_of(reply) {
            None => AgentModel { phase: PhaseModel::Finished(reply), ..m },
            Some(command) => AgentModel {
                history: m.history.push(MessageModel { role: Role::Assistant, content: reply }),
                phase: PhaseModel::Executing(command),
                ..m
            },
        },
    }
}

/// The message that reports a command's outcome to the model.
pub open spec fn execution_report(outcome: Result<Seq<char>, Seq<char>>) -> Seq<char> {
    match outcome {
        Ok(output) => "COMMAND_OUTPUT:\n"@ + output,
        Err(e) => "ERROR: "@ + e,
    }
}

/// The state after a command finished with `outcome`.
pub open spec fn execution_step(m: AgentModel, outcome: Result<Seq<char>, Seq<char>>) -> AgentModel {
    let n = m.iterations + 1;
    AgentModel {
        history: m.history.push(
            MessageModel { role: Role::User, content: execution_report(outcome) },
        ),
        iterations: n,
        phase: if n >= m.max_iterations {
            PhaseModel::Aborted(AbortModel::MaxIterations)
        } else {
            PhaseModel::AwaitingCompletion
        },
        ..m
    }
}

/// A reply with no opening marker ends the run with that reply as the
/// answer, and the history and the counter stay as they were.
pub proof fn lemma_reply_without_marker_finishes(m: AgentModel, reply: Seq<char>)
    requires
        m.phase is AwaitingCompletion,
        find_from(reply, open_marker(), 0) is None,
    ensures
        completion_step(m, Ok(reply)).phase == PhaseModel::Finished(reply),
        completion_step(m, Ok(reply)).history == m.history,
        completion_step(m, Ok(reply)).iterations == m.iterations,
{
    lemma_no_marker_no_command(reply);
}

/// A full cycle (a reply with a command, then its outcome) moves the counter
/// by exactly one; the completion call alone does not move it.
pub proof fn lemma_cycle_counts_once(
    m: AgentModel,
    reply: Seq<char>,
    outcome: Result<Seq<char>, Seq<char>>,
)
    requires
        m.phase is AwaitingCompletion,
        command_of(reply) is Some,
    ensures
        completion_step(m, Ok(reply)).iterations == m.iterations,
        completion_step(m, Ok(reply)).phase is Executing,
        execution_step(completion_step(m, Ok(reply)), outcome).iterations == m.iterations + 1,
{
}

/// A reply with a command followed by the command's outcome.
pub open spec fn command_cycle(
    m: AgentModel,
    reply: Seq<char>,
    outcome: Result<Seq<char>, Seq<char>>,
) -> AgentModel {
    execution_step(completion_step(m, Ok(reply)), outcome)
}

/// The state after feeding replies and command outcomes in turn, for as long
/// as the run awaits a completion.
pub open spec fn run_cycles(
    m: AgentModel,
    replies: Seq<Seq<char>>,
    outcomes: Seq<Result<Seq<char>, Seq<char>>>,
) -> AgentModel
    decreases replies.len(),
{
    if replies.len() == 0 || outcomes.len() == 0 || !(m.phase is AwaitingCompletion) {
        m
    } else {
        let next = completion_step(m, Ok(replies[0]));
        if next.phase is Executing {
            run_cycles(
                execution_step(next, outcomes[0]),
                replies.drop_first(),
                outcomes.drop_first(),
            )
        } else {
            next
        }
    }
}

proof fn lemma_run_cycles_from(
    m: AgentModel,
    replies: Seq<Seq<char>>,
    outcomes: Seq<Result<Seq<char>, Seq<char>>>,
)
    requires
        m.phase is AwaitingCompletion,
        m.iterations < m.max_iterations,
        replies.len() == outcomes.len(),
        forall|i: int| 0 <= i < replies.len() ==> (#[trigger] command_of(replies[i])) is Some,
    ensures
        replies.len() < m.max_iterations - m.iterations ==> run_cycles(m, replies, outcomes).phase
            is AwaitingCompletion && run_cycles(m, replies, outcomes).iterations == m.iterations
            + replies.len(),
        replies.len() >= m.max_iterations - m.iterations ==> run_cycles(
            m,
            replies,
            outcomes,
        ).phase == PhaseModel::Aborted(AbortModel::MaxIterations) && run_cycles(
            m,
            replies,
            outcomes,
        ).iterations == m.max_iterations,
    decreases replies.len(),
{
    if replies.len() > 0 {
        assert(command_of(replies[0]) is Some);
        let next = execution_step(completion_step(m, Ok(replies[0])), outcomes[0]);
        if next.iterations < next.max_iterations {
            let rs = replies.drop_first();
            assert forall|i: int| 0 <= i < rs.len() implies (#[trigger] command_of(rs[i])) is Some by {
                assert(rs[i] == replies[i + 1]);
            }
            lemma_run_cycles_from(next, rs, outcomes.drop_first());
        }
    }
}

/// When every reply asks for a command, a run with a cap of `n` cycles runs
/// exactly `n` commands and then aborts: with fewer replies it is still
/// awaiting a completion, with `n` or more it has aborted at the cap.
pub proof fn lemma_always_command_aborts_at_cap(
    m: AgentModel,
    replies: Seq<Seq<char>>,
    outcomes: Seq<Result<Seq<char>, Seq<char>>>,
)
    requires
        m.phase is AwaitingCompletion,
        m.iterations == 0,
        m.max_iterations >= 1,
        replies.len() == outcomes.len(),
        forall|i: int| 0 <= i < replies.len() ==> (#[trigger] command_of(replies[i])) is Some,
    ensures
        replies.len() < m.max_iterations ==> run_cycles(m, replies, outcomes).phase
            is AwaitingCompletion && run_cycles(m, replies, outcomes).iterations == replies.len(),
        replies.len() >= m.max_iterations ==> run_cycles(m, replies, outcomes).phase
            == PhaseModel::Aborted(AbortModel::MaxIterations) && run_cycles(
            m,
            replies,
            outcomes,
        ).iterations == m.max_iterations,
{
    lemma_run_cycles_from(m, replies, outcomes);
}

/// A failed completion call aborts at once: nothing is added to the history
/// and the counter stays where it was (at zero on the first call).
pub proof fn lemma_transport_failure_aborts(m: AgentModel, e: Seq<char>)
    requires
        m.phase is AwaitingCompletion,
    ensures
        completion_step(m, Err(e)).phase == PhaseModel::Aborted(AbortModel::Transport(e)),
        completion_step(m, Err(e)).history == m.history,
        completion_step(m, Err(e)).iterations == m.iterations,
{
}

/// A failed command adds an `ERROR: ` message to the history, and the run
/// goes back to the model unless the cap is reached.
pub proof fn lemma_execution_failure_continues(m: AgentModel, e: Seq<char>)
    requires
        m.phase is Executing,
        m.iterations + 1 < m.max_iterations,
    ensures
        execution_step(m, Err(e)).history == m.history.push(
            MessageModel { role: Role::User, content: "ERROR: "@ + e },
        ),
        execution_step(m, Err(e)).phase is AwaitingCompletion,
{
}

/// One run of the control loop: the conversation, its counter of command
/// cycles, and what comes next.
pub struct Agent {
    history: History,
    iterations: u64,
    max_iterations: u64,
    max_tokens: u32,
    phase: Phase,
}

impl View for Agent {
    type V = AgentModel;

    closed spec fn view(&self) -> AgentModel {
        AgentModel {
            history: self.history@,
            iterations: self.iterations as nat,
            max_iterations: self.max_iterations as nat,
            phase: self.phase@,
        }
    }
}

impl Agent {
    /// The history starts with the system message and, before each completion
    /// call, ends with a user message; while the run goes on the counter stays
    /// below the cap (or has not moved yet).
    pub closed spec fn wf(&self) -> bool {
        &&& self.history.wf()
        &&& self.phase is AwaitingCompletion ==> self.history@.last().role == Role::User
        &&& self.phase is Executing ==> self.history@.last().role == Role::Assistant
        &&& (self.phase is AwaitingCompletion || self.phase is Executing) ==> (self.iterations
            < self.max_iterations || self.iterations == 0)
    }

    pub closed spec fn max_tokens_spec(&self) -> u32 {
        self.max_tokens
    }

    /// Starts a run: the system prompt, then the prior turns, then the user's
    /// message, awaiting the first completion.
    pub fn new(config: Config) -> (r: Agent)
        ensures
            r.wf(),
            r@ == initial_model(
                system_prompt_spec(
                    config.agent_name@,
                    config.agent_role@,
                    config.docker_image@,
                ),
                messages_view(config.history@),
                config.user_msg@,
                config.max_iterations as nat,
            ),
            r.max_tokens_spec() == config.max_tokens,
    {
        let prompt = build_system_prompt(
            config.agent_name.as_str(),
            config.agent_role.as_str(),
            config.docker_image.as_str(),
        );
        let mut history = History::new(prompt);
        history.append_seed_history(&config.history);
        history.append(Role::User, config.user_msg);
        let r = Agent {
            history,
            iterations: 0,
            max_iterations: config.max_iterations,
            max_tokens: config.max_tokens,
            phase: Phase::AwaitingCompletion,
        };
        assert(r@.history =~= initial_model(
            system_prompt_spec(config.agent_name@, config.agent_role@, config.docker_image@),
            messages_view(config.history@),
            config.user_msg@,
            config.max_iterations as nat,
        ).history);
        r
    }

    /// Takes in what the completion call gave: a failure aborts the run, a
    /// final answer ends it, a command is recorded and is to be run next.
    pub fn on_completion(&mut self, outcome: Result<String, String>)
        requires
            old(self).wf(),
            old(self)@.phase is AwaitingCompletion,
        ensures
            final(self).wf(),
            final(self)@ == completion_step(old(self)@, outcome_view(outcome)),
            final(self).max_tokens_spec() == old(self).max_tokens_spec(),
    {
        match outcome {
            Err(e) => {
                self.phase = Phase::Aborted(AbortReason::Transport(e));
            },
            Ok(reply) => match extract_command(reply.as_str()) {
                None => {
                    self.phase = Phase::Finished(reply);
                },
                Some(command) => {
                    self.history.append(Role::Assistant, reply);
                    self.phase = Phase::Executing(command);
                },
            },
        }
    }

    /// Takes in how the command went: its output or its failure goes to the
    /// history as a user message, the counter moves by one, and the run goes
    /// back to the model unless the cap is reached.
    pub fn on_execution(&mut self, outcome: Result<String, String>)
        requires
            old(self).wf(),
            old(self)@.phase is Executing,
        ensures
            final(self).wf(),
            final(self)@ == execution_step(old(self)@, outcome_view(outcome)),
            final(self).max_tokens_spec() == old(self).max_tokens_spec(),
    {
        let report = match outcome {
            Ok(output) => String::from_str("COMMAND_OUTPUT:\n").concat(output.as_str()),
            Err(e) => String::from_str("ERROR: ").concat(e.as_str()),
        };
        self.history.append(Role::User, report);
        self.iterations = self.iterations + 1;
        if self.iterations >= self.max_iterations {
            self.phase = Phase::Aborted(AbortReason::MaxIterations);
        } else {
            self.phase = Phase::AwaitingCompletion;
        }
    }

    /// Where the run stands.
    pub fn phase(&self) -> (r: &Phase)
        ensures
            r@ == self@.phase,
    {
        &self.phase
    }

    /// The conversation so far, to send with the next completion call.
    pub fn history(&self) -> (r: &History)
        ensures
            r@ == self@.history,
    {
        &self.history
    }

    /// The number of command cycles completed.
    pub fn iterations(&self) -> (r: u64)
        ensures
            r == self@.iterations,
    {
        self.iterations
    }

    pub fn max_iterations(&self) -> (r: u64)
        ensures
            r == self@.max_iterations,
    {
        self.max_iterations
    }

    /// The output-token budget of each completion call.
    pub fn max_tokens(&self) -> (r: u32)
        ensures
            r == self.max_tokens_spec(),
    {
        self.max_tokens
    }
}

} // verus!
