//! Per-language execution: stage the source, wait for the anchor, compile
//! where the language needs it, run, terminate, respond.
//!
//! The flow is a pure transition from state and event to next state and
//! action. The caller owns the sandbox and the clock: it performs each action
//! and reports the result back as the next event.
use vstd::prelude::*;
use vstd::string::*;

verus! {

/// Seconds, counted from the sandbox's creation, within which the anchor
/// must be seen alive before a command is given up.
pub const TIMEOUT_SECS: u64 = 15;

/// A request to run source code.
#[derive(Debug, Clone)]
pub struct ExecutionRequest {
    pub code: String,
}

/// What a request gets back: the program's output or a diagnostic.
#[derive(Debug, Clone)]
pub struct ExecutionResponse {
    pub output: String,
}

/// The languages that can be run.
#[derive(Clone, Copy, Debug, PartialEq, Eq, Structural)]
pub enum Language {
    Python,
    Cpp,
}

/// The command a run is waiting to inject.
#[derive(Clone, Copy, Debug, PartialEq, Eq, Structural)]
pub enum Stage {
    Compile,
    Execute,
}

/// Where a run stands.
#[derive(Clone, Copy, Debug, PartialEq, Eq, Structural)]
pub enum Phase {
    /// Waiting for the sandbox to be created.
    Creating,
    /// Waiting for the source to be written.
    Writing,
    /// Waiting for a probe of the clock and of the anchor.
    Waiting(Stage),
    /// Waiting for the pause between two probes to end.
    Sleeping(Stage),
    /// Waiting for an injected command to finish.
    Running(Stage),
    /// The response is decided; waiting for the anchor's termination.
    Terminating,
    /// The response has been given.
    Done,
}

/// What the caller is asked to do next.
#[derive(Debug, Clone)]
pub enum Action {
    /// Create a sandbox; answer with `Created`.
    CreateSandbox,
    /// Write the source (second field) to the path (first field); answer with `Written`.
    WriteSource(String, String),
    /// Read the seconds since the sandbox's creation and probe the anchor; answer with `Probed`.
    Probe,
    /// Wait one second; answer with `Slept`.
    Sleep,
    /// Inject the command into the sandbox; answer with `Ran`.
    RunCommand(String),
    /// Run the termination protocol on the anchor; answer with `Terminated`.
    Terminate,
    /// Give this response; the run is over.
    Respond(ExecutionResponse),
}

/// What the caller reports back.
#[derive(Debug)]
pub enum Event {
    /// Whether a sandbox was created.
    Created(bool),
    /// The source was written, or why it was not.
    Written(Result<(), String>),
    /// Whole seconds since the sandbox's creation, and whether the anchor is alive.
    Probed(u64, bool),
    Slept,
    /// The outcome of the injected command.
    Ran(Result<String, String>),
    Terminated,
}

/// The mathematical value of an `Action`.
pub enum ActionView {
    CreateSandbox,
    WriteSource(Seq<char>, Seq<char>),
    Probe,
    Sleep,
    RunCommand(Seq<char>),
    Terminate,
    Respond(Seq<char>),
}

impl View for Action {
    type V = ActionView;

    open spec fn view(&self) -> ActionView {
        match self {
            Action::CreateSandbox => ActionView::CreateSandbox,
            Action::WriteSource(p, c) => ActionView::WriteSource(p@, c@),
            Action::Probe => ActionView::Probe,
            Action::Sleep => ActionView::Sleep,
            Action::RunCommand(c) => ActionView::RunCommand(c@),
            Action::Terminate => ActionView::Terminate,
            Action::Respond(r) => ActionView::Respond(r.output@),
        }
    }
}

/// The mathematical value of an `Execution`.
pub struct ExecutionView {
    pub language: Language,
    pub id: Seq<char>,
    pub code: Seq<char>,
    pub phase: Phase,
    pub output: Seq<char>,
}

/// One run of source code through a sandbox.
pub struct Execution {
    language: Language,
    id: String,
    code: String,
    phase: Phase,
    output: String,
}

impl View for Execution {
    type V = ExecutionView;

    closed spec fn view(&self) -> ExecutionView {
        ExecutionView {
            language: self.language,
            id: self.id@,
            code: self.code@,
            phase: self.phase,
            output: self.output@,
        }
    }
}

pub open spec fn failed_to_create() -> Seq<char> {
    "Failed to create sandbox"@
}

pub open spec fn failed_to_write(reason: Seq<char>) -> Seq<char> {
    "Failed to write code to file: "@ + reason
}

pub open spec fn timed_out() -> Seq<char> {
    "Execution timed out"@
}

pub open spec fn compilation_failed(diagnostic: Seq<char>) -> Seq<char> {
    "Compilation failed:\n"@ + diagnostic
}

/// Where the source of a run with identifier `id` is staged.
pub open spec fn source_path(language: Language, id: Seq<char>) -> Seq<char> {
    match language {
        Language::Python => "/tmp/"@ + id + ".py"@,
        Language::Cpp => "/tmp/"@ + id + ".cpp"@,
    }
}

/// Where a compiled program is written.
pub open spec fn binary_path(id: Seq<char>) -> Seq<char> {
    "/tmp/"@ + id
}

/// The first command a language needs.
pub open spec fn first_stage(language: Language) -> Stage {
    match language {
        Language::Python => Stage::Execute,
        Language::Cpp => Stage::Compile,
    }
}

/// The shell command of a stage.
pub open spec fn stage_command(language: Language, stage: Stage, id: Seq<char>) -> Seq<char> {
    match (language, stage) {
        (Language::Cpp, Stage::Compile) => "g++ -o "@ + binary_path(id) + " "@ + source_path(language, id),
        (Language::Cpp, Stage::Execute) => binary_path(id),
        (Language::Python, _) => "python3 "@ + source_path(language, id),
    }
}

/// The action a state waits on; it is asked again when an event does not answer it.
pub open spec fn pending_action(v: ExecutionView) -> ActionView {
    match v.phase {
        Phase::Creating => ActionView::CreateSandbox,
        Phase::Writing => ActionView::WriteSource(source_path(v.language, v.id), v.code),
        Phase::Waiting(_) => ActionView::Probe,
        Phase::Sleeping(_) => ActionView::Sleep,
        Phase::Running(stage) => ActionView::RunCommand(stage_command(v.language, stage, v.id)),
        Phase::Terminating => ActionView::Terminate,
        Phase::Done => ActionView::Respond(v.output),
    }
}

/// The state `v` moved to `phase`.
pub open spec fn moved(v: ExecutionView, phase: Phase) -> ExecutionView {
    ExecutionView { phase, ..v }
}

/// The state `v` with its response decided and the anchor's termination asked for.
pub open spec fn concluded(v: ExecutionView, output: Seq<char>) -> (ExecutionView, ActionView) {
    (ExecutionView { phase: Phase::Terminating, output, ..v }, ActionView::Terminate)
}

/// The run's transition.
pub open spec fn next_execution(v: ExecutionView, e: Event) -> (ExecutionView, ActionView) {
    match (v.phase, e) {
        (Phase::Creating, Event::Created(created)) => if created {
            let w = moved(v, Phase::Writing);
            (w, pending_action(w))
        } else {
            let w = ExecutionView { phase: Phase::Done, output: failed_to_create(), ..v };
            (w, pending_action(w))
        },
        (Phase::Writing, Event::Written(Ok(_))) => (moved(v, Phase::Waiting(first_stage(v.language))), ActionView::Probe),
        (Phase::Writing, Event::Written(Err(reason))) => concluded(v, failed_to_write(reason@)),
        (Phase::Waiting(stage), Event::Probed(elapsed, alive)) => if elapsed >= TIMEOUT_SECS {
            concluded(v, timed_out())
        } else if alive {
            let w = moved(v, Phase::Running(stage));
            (w, pending_action(w))
        } else {
            (moved(v, Phase::Sleeping(stage)), ActionView::Sleep)
        },
        (Phase::Sleeping(stage), Event::Slept) => (moved(v, Phase::Waiting(stage)), ActionView::Probe),
        (Phase::Running(Stage::Compile), Event::Ran(Ok(_))) => (moved(v, Phase::Waiting(Stage::Execute)), ActionView::Probe),
        (Phase::Running(Stage::Compile), Event::Ran(Err(diagnostic))) => concluded(v, compilation_failed(diagnostic@)),
        (Phase::Running(Stage::Execute), Event::Ran(Ok(out))) => concluded(v, out@),
        (Phase::Running(Stage::Execute), Event::Ran(Err(out))) => concluded(v, out@),
        (Phase::Terminating, Event::Terminated) => {
            let w = moved(v, Phase::Done);
            (w, pending_action(w))
        },
        _ => (v, pending_action(v)),
    }
}

/// Text that can stand in a path and a shell command: a random id in the
/// hyphenated lower-case form, 8-4-4-4-12 hexadecimal digits.
pub open spec fn is_uuid_text(s: Seq<char>) -> bool {
    &&& s.len() == 36
    &&& forall|i: int|
        0 <= i < 36 ==> if i == 8 || i == 13 || i == 18 || i == 23 {
            #[trigger] s[i] == '-'
        } else {
            ('0' <= s[i] && s[i] <= '9') || ('a' <= s[i] && s[i] <= 'f')
        }
}

/// Relies on `uuid::Uuid::new_v4` for a random id and on `Uuid`'s `Display`,
/// which writes it hyphenated in lower case (36 characters). The bits come
/// from the operating system's random source; uuid panics when that source
/// cannot supply them.
#[verifier::external_body]
fn fresh_id() -> (r: String)
    ensures
        is_uuid_text(r@),
{
    uuid::Uuid::new_v4().to_string()
}

/// Whether the anchor's termination has been asked for.
pub open spec fn termination_requested(phase: Phase) -> bool {
    phase is Terminating || phase is Done
}

/// The anchor is sent one termination request per run: the request is made
/// only on leaving the phases before it (or asked again while it goes
/// unanswered), a run never returns to those phases, and no command is
/// injected once it is made.
pub proof fn lemma_single_termination(v: ExecutionView, e: Event)
    ensures
        termination_requested(v.phase) ==> termination_requested(next_execution(v, e).0.phase),
        next_execution(v, e).1 is Terminate ==> !termination_requested(v.phase) || (v.phase is Terminating
            && !(e is Terminated)),
        termination_requested(v.phase) ==> !(next_execution(v, e).1 is RunCommand),
        next_execution(v, e).1 is Respond ==> next_execution(v, e).0.phase is Done,
{
}

/// Every transition asks for the action that its new state waits on.
pub proof fn lemma_action_is_pending(v: ExecutionView, e: Event)
    ensures
        next_execution(v, e).1 == pending_action(next_execution(v, e).0),
{
}

/// Whether `e` is the report that action `a` asks for; a response asks for none.
pub open spec fn answers(a: ActionView, e: Event) -> bool {
    match a {
        ActionView::CreateSandbox => e is Created,
        ActionView::WriteSource(_, _) => e is Written,
        ActionView::Probe => e is Probed,
        ActionView::Sleep => e is Slept,
        ActionView::RunCommand(_) => e is Ran,
        ActionView::Terminate => e is Terminated,
        ActionView::Respond(_) => false,
    }
}

/// The actions a run in state `v` asks for when the caller answers each
/// action with the next event of `es`, up to the first event that does not
/// answer it.
pub open spec fn actions_of_run(v: ExecutionView, es: Seq<Event>) -> Seq<ActionView>
    decreases es.len(),
{
    if es.len() == 0 || !answers(pending_action(v), es[0]) {
        Seq::empty()
    } else {
        seq![next_execution(v, es[0]).1] + actions_of_run(next_execution(v, es[0]).0, es.drop_first())
    }
}

/// How many termination requests a list of actions holds.
pub open spec fn termination_requests(actions: Seq<ActionView>) -> nat
    decreases actions.len(),
{
    if actions.len() == 0 {
        0
    } else {
        (if actions[0] is Terminate { 1nat } else { 0nat }) + termination_requests(actions.drop_first())
    }
}

proof fn lemma_requests_of_prepended(a: ActionView, rest: Seq<ActionView>)
    ensures
        termination_requests(seq![a] + rest) == (if a is Terminate { 1nat } else { 0nat })
            + termination_requests(rest),
{
    assert((seq![a] + rest).drop_first() =~= rest);
}

/// Once the anchor's termination has been asked for, a run asks for it no more.
pub proof fn lemma_no_request_after_termination(v: ExecutionView, es: Seq<Event>)
    requires
        termination_requested(v.phase),
    ensures
        termination_requests(actions_of_run(v, es)) == 0,
{
    if es.len() > 0 && answers(pending_action(v), es[0]) {
        let w = next_execution(v, es[0]).0;
        assert(w.phase is Done);
        assert(actions_of_run(w, es.drop_first()) =~= Seq::<ActionView>::empty());
        lemma_requests_of_prepended(next_execution(v, es[0]).1, actions_of_run(w, es.drop_first()));
    }
}

/// Once the anchor's termination has been asked for, the only action a run
/// can still ask for is its response: no command is injected any more.
pub proof fn lemma_only_response_after_termination(v: ExecutionView, es: Seq<Event>)
    requires
        termination_requested(v.phase),
    ensures
        actions_of_run(v, es).len() <= 1,
        forall|i: int| 0 <= i < actions_of_run(v, es).len() ==> #[trigger] actions_of_run(v, es)[i] is Respond,
{
    if es.len() > 0 && answers(pending_action(v), es[0]) {
        let w = next_execution(v, es[0]).0;
        assert(actions_of_run(w, es.drop_first()) =~= Seq::<ActionView>::empty());
    }
}

/// However the caller answers, a run asks for the anchor's termination at
/// most once.
pub proof fn lemma_terminates_at_most_once(v: ExecutionView, es: Seq<Event>)
    ensures
        termination_requests(actions_of_run(v, es)) <= 1,
    decreases es.len(),
{
    if termination_requested(v.phase) {
        lemma_no_request_after_termination(v, es);
    } else if es.len() > 0 && answers(pending_action(v), es[0]) {
        let (w, b) = next_execution(v, es[0]);
        lemma_requests_of_prepended(b, actions_of_run(w, es.drop_first()));
        if b is Terminate {
            lemma_no_request_after_termination(w, es.drop_first());
        } else {
            lemma_terminates_at_most_once(w, es.drop_first());
        }
    }
}

/// When the time budget is spent before the anchor is seen alive, the run
/// asks for the anchor's termination, then responds with the timeout, and
/// stays done whatever is reported afterwards.
pub proof fn lemma_timeout_terminates(v: ExecutionView, stage: Stage, elapsed: u64, alive: bool, later: Event)
    requires
        v.phase == Phase::Waiting(stage),
        elapsed >= TIMEOUT_SECS,
    ensures
        next_execution(v, Event::Probed(elapsed, alive)).1 == ActionView::Terminate,
        next_execution(v, Event::Probed(elapsed, alive)).0.phase == Phase::Terminating,
        next_execution(next_execution(v, Event::Probed(elapsed, alive)).0, Event::Terminated).1
            == ActionView::Respond(timed_out()),
        next_execution(
            next_execution(next_execution(v, Event::Probed(elapsed, alive)).0, Event::Terminated).0,
            later,
        ).1 == ActionView::Respond(timed_out()),
{
}

/// A source that fails to compile is never run: the run asks for the
/// anchor's termination and then responds with the compiler's diagnostic.
pub proof fn lemma_compile_failure_never_runs(v: ExecutionView, diagnostic: String)
    requires
        v.phase == Phase::Running(Stage::Compile),
    ensures
        next_execution(v, Event::Ran(Err(diagnostic))).1 == ActionView::Terminate,
        termination_requested(next_execution(v, Event::Ran(Err(diagnostic))).0.phase),
        next_execution(next_execution(v, Event::Ran(Err(diagnostic))).0, Event::Terminated).1
            == ActionView::Respond(compilation_failed(diagnostic@)),
{
}

/// A successful compilation is followed by a new wait for the anchor and
/// then by the run of the compiled binary.
pub proof fn lemma_compiled_binary_runs(v: ExecutionView, out: String, elapsed: u64)
    requires
        v.phase == Phase::Running(Stage::Compile),
        v.language == Language::Cpp,
        elapsed < TIMEOUT_SECS,
    ensures
        next_execution(v, Event::Ran(Ok(out))).1 == ActionView::Probe,
        next_execution(next_execution(v, Event::Ran(Ok(out))).0, Event::Probed(elapsed, true)).1
            == ActionView::RunCommand(binary_path(v.id)),
{
}

/// What an executed program reports, success or failure, is the response text.
pub proof fn lemma_program_outcome_is_response(v: ExecutionView, outcome: Result<String, String>)
    requires
        v.phase == Phase::Running(Stage::Execute),
    ensures
        next_execution(next_execution(v, Event::Ran(outcome)).0, Event::Terminated).1 == ActionView::Respond(
            match outcome {
                Ok(o) => o@,
                Err(o) => o@,
            },
        ),
{
}

fn source_path_string(language: Language, id: &str) -> (r: String)
    ensures
        r@ == source_path(language, id@),
{
    let s = String::from_str("/tmp/").concat(id);
    match language {
        Language::Python => s.concat(".py"),
        Language::Cpp => s.concat(".cpp"),
    }
}

fn stage_command_string(language: Language, stage: Stage, id: &str) -> (r: String)
    ensures
        r@ == stage_command(language, stage, id@),
{
    match (language, stage) {
        (Language::Cpp, Stage::Compile) => {
            let binary = String::from_str("/tmp/").concat(id);
            let s = String::from_str("g++ -o ").concat(binary.as_str()).concat(" ");
            s.concat(source_path_string(language, id).as_str())
        },
        (Language::Cpp, Stage::Execute) => String::from_str("/tmp/").concat(id),
        (Language::Python, _) => String::from_str("python3 ").concat(source_path_string(language, id).as_str()),
    }
}

impl Execution {
    /// A run of `code` in `language` whose staged files are named after `id`.
    /// Its first action is `CreateSandbox`.
    pub fn with_id(language: Language, code: String, id: String) -> (r: Execution)
        ensures
            r@ == (ExecutionView { language, id: id@, code: code@, phase: Phase::Creating, output: Seq::empty() }),
            pending_action(r@) == ActionView::CreateSandbox,
    {
        Execution { language, id, code, phase: Phase::Creating, output: String::new() }
    }

    /// A run of `code` in `language` under a fresh random id.
    pub fn new(language: Language, code: String) -> (r: Execution)
        ensures
            r@.language == language,
            r@.code == code@,
            r@.phase == Phase::Creating,
            r@.output == Seq::<char>::empty(),
            is_uuid_text(r@.id),
    {
        Execution::with_id(language, code, fresh_id())
    }

    /// The run's language.
    pub fn language(&self) -> (r: Language)
        ensures
            r == self@.language,
    {
        self.language
    }

    /// Where the run stands.
    pub fn phase(&self) -> (r: Phase)
        ensures
            r == self@.phase,
    {
        self.phase
    }

    /// The identifier its staged files are named after.
    pub fn id(&self) -> (r: &str)
        ensures
            r@ == self@.id,
    {
        self.id.as_str()
    }

    /// Whether the response has been given.
    pub fn is_done(&self) -> (r: bool)
        ensures
            r == (self@.phase == Phase::Done),
    {
        self.phase == Phase::Done
    }

    fn pending(&self) -> (r: Action)
        ensures
            r@ == pending_action(self@),
    {
        match self.phase {
            Phase::Creating => Action::CreateSandbox,
            Phase::Writing => Action::WriteSource(
                source_path_string(self.language, self.id.as_str()),
                self.code.clone(),
            ),
            Phase::Waiting(_) => Action::Probe,
            Phase::Sleeping(_) => Action::Sleep,
            Phase::Running(stage) => Action::RunCommand(stage_command_string(self.language, stage, self.id.as_str())),
            Phase::Terminating => Action::Terminate,
            Phase::Done => Action::Respond(ExecutionResponse { output: self.output.clone() }),
        }
    }

    fn conclude(&mut self, output: String) -> (r: Action)
        ensures
            (final(self)@, r@) == concluded(old(self)@, output@),
    {
        self.phase = Phase::Terminating;
        self.output = output;
        Action::Terminate
    }

    /// Takes the answer to the last action and gives the next one.
    pub fn step(&mut self, e: Event) -> (r: Action)
        ensures
            (final(self)@, r@) == next_execution(old(self)@, e),
    {
        match (self.phase, e) {
            (Phase::Creating, Event::Created(created)) => {
                if created {
                    self.phase = Phase::Writing;
                } else {
                    self.phase = Phase::Done;
                    self.output = String::from_str("Failed to create sandbox");
                }
                self.pending()
            },
            (Phase::Writing, Event::Written(Ok(_))) => {
                self.phase = Phase::Waiting(
                    match self.language {
                        Language::Python => Stage::Execute,
                        Language::Cpp => Stage::Compile,
                    },
                );
                Action::Probe
            },
            (Phase::Writing, Event::Written(Err(reason))) => {
                self.conclude(String::from_str("Failed to write code to file: ").concat(reason.as_str()))
            },
            (Phase::Waiting(stage), Event::Probed(elapsed, alive)) => {
                if elapsed >= TIMEOUT_SECS {
                    self.conclude(String::from_str("Execution timed out"))
                } else if alive {
                    self.phase = Phase::Running(stage);
                    self.pending()
                } else {
                    self.phase = Phase::Sleeping(stage);
                    Action::Sleep
                }
            },
            (Phase::Sleeping(stage), Event::Slept) => {
                self.phase = Phase::Waiting(stage);
                Action::Probe
            },
            (Phase::Running(Stage::Compile), Event::Ran(Ok(_))) => {
                self.phase = Phase::Waiting(Stage::Execute);
                Action::Probe
            },
            (Phase::Running(Stage::Compile), Event::Ran(Err(diagnostic))) => {
                self.conclude(String::from_str("Compilation failed:\n").concat(diagnostic.as_str()))
            },
            (Phase::Running(Stage::Execute), Event::Ran(Ok(out))) => self.conclude(out),
            (Phase::Running(Stage::Execute), Event::Ran(Err(out))) => self.conclude(out),
            (Phase::Terminating, Event::Terminated) => {
                self.phase = Phase::Done;
                self.pending()
            },
            _ => self.pending(),
        }
    }
}

} // verus!
