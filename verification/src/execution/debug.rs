//! Interactive debugging state for test execution: breakpoints on
//! scenarios and steps, a pause decision, a command parser, and a
//! snapshot record of what ran.  The interactive prompt itself lives in
//! the surrounding program; this module decides, it does not read input.

use vstd::prelude::*;
use vstd::string::StringExecFns;
use crate::execution::result::ScenarioResult;
use crate::kvstore::KvMap;
use crate::text::{str_eq, trim};
use crate::clock::now_rfc3339;

verus! {

/// Debugger state: enabled flag, breakpoint tables and position.
#[derive(Debug)]
pub struct Debugger {
    pub enabled: bool,
    pub breakpoints: KvMap<bool>,
    pub paused: bool,
    pub step_breakpoints: KvMap<bool>,
    pub auto_step: bool,
    pub current_scenario: String,
    pub current_step_index: usize,
}

impl Debugger {
    pub open spec fn wf(self) -> bool {
        self.breakpoints.wf() && self.step_breakpoints.wf()
    }

    /// Should execution pause here?  Only when enabled, and only when an
    /// enabled breakpoint names this scenario or this step text.
    pub open spec fn spec_should_pause(self, scenario: Seq<char>, step: Seq<char>) -> bool {
        self.enabled && (self.breakpoints.spec_get(scenario) == Some(true)
            || self.step_breakpoints.spec_get(step) == Some(true))
    }

    pub fn new() -> (d: Debugger)
        ensures
            !d.enabled,
            !d.paused,
            !d.auto_step,
            d.breakpoints.entries@.len() == 0,
            d.step_breakpoints.entries@.len() == 0,
            d.current_scenario@.len() == 0,
            d.current_step_index == 0,
            d.wf(),
    {
        Debugger {
            enabled: false,
            breakpoints: KvMap::new(),
            paused: false,
            step_breakpoints: KvMap::new(),
            auto_step: false,
            current_scenario: String::new(),
            current_step_index: 0,
        }
    }

    pub fn enable(&mut self)
        ensures
            *final(self) == (Debugger { enabled: true, ..*old(self) }),
    {
        self.enabled = true;
    }

    pub fn disable(&mut self)
        ensures
            *final(self) == (Debugger { enabled: false, paused: false, ..*old(self) }),
    {
        self.enabled = false;
        self.paused = false;
    }

    pub fn set_scenario_breakpoint(&mut self, scenario_name: &str, enabled: bool)
        requires
            old(self).wf(),
        ensures
            final(self).wf(),
            *final(self) == (Debugger { breakpoints: final(self).breakpoints, ..*old(self) }),
            final(self).breakpoints.spec_get(scenario_name@) == Some(enabled),
            forall|k: Seq<char>|
                k != scenario_name@ ==> #[trigger] final(self).breakpoints.spec_get(k) == old(
                    self,
                ).breakpoints.spec_get(k),
    {
        self.breakpoints.insert(scenario_name, enabled);
    }

    pub fn set_step_breakpoint(&mut self, step_text: &str, enabled: bool)
        requires
            old(self).wf(),
        ensures
            final(self).wf(),
            *final(self) == (Debugger {
                step_breakpoints: final(self).step_breakpoints,
                ..*old(self)
            }),
            final(self).step_breakpoints.spec_get(step_text@) == Some(enabled),
            forall|k: Seq<char>|
                k != step_text@ ==> #[trigger] final(self).step_breakpoints.spec_get(k) == old(
                    self,
                ).step_breakpoints.spec_get(k),
    {
        self.step_breakpoints.insert(step_text, enabled);
    }

    pub fn clear_breakpoints(&mut self)
        ensures
            final(self).wf(),
            final(self).breakpoints.entries@.len() == 0,
            final(self).step_breakpoints.entries@.len() == 0,
            final(self).enabled == old(self).enabled,
            final(self).paused == old(self).paused,
            forall|sc: Seq<char>, st: Seq<char>|
                !#[trigger] final(self).spec_should_pause(sc, st),
    {
        self.breakpoints.clear();
        self.step_breakpoints.clear();
    }

    /// Decide whether to pause at this scenario and step.
    pub fn should_pause(&self, scenario_name: &str, step_text: &str) -> (r: bool)
        requires
            self.wf(),
        ensures
            r == self.spec_should_pause(scenario_name@, step_text@),
    {
        if !self.enabled {
            return false;
        }
        match self.breakpoints.get(scenario_name) {
            Some(enabled) => {
                if *enabled {
                    return true;
                }
            },
            None => {},
        }
        match self.step_breakpoints.get(step_text) {
            Some(enabled) => {
                if *enabled {
                    return true;
                }
            },
            None => {},
        }
        false
    }

    /// Parse one debugger command line.
    pub fn parse_command(&self, input: &str) -> (c: DebugCommand)
        ensures
            c@ == spec_parse_command(input@),
    {
        parse_command_line(input)
    }
}

/// What the debugger can be told to do.
#[derive(Debug, Clone)]
pub enum DebugCommand {
    Continue,
    Step,
    Repeat,
    Skip,
    Help,
    Info,
    Breakpoints,
    SetBreakpoint(String),
    ClearBreakpoint(String),
    Quit,
    Unknown,
}

/// Ghost image of a parsed command.
#[verifier::ext_equal]
pub enum CommandModel {
    Continue,
    Step,
    Repeat,
    Skip,
    Help,
    Info,
    Breakpoints,
    SetBreakpoint(Seq<char>),
    ClearBreakpoint(Seq<char>),
    Quit,
    Unknown,
}

impl View for DebugCommand {
    type V = CommandModel;

    open spec fn view(&self) -> CommandModel {
        match self {
            DebugCommand::Continue => CommandModel::Continue,
            DebugCommand::Step => CommandModel::Step,
            DebugCommand::Repeat => CommandModel::Repeat,
            DebugCommand::Skip => CommandModel::Skip,
            DebugCommand::Help => CommandModel::Help,
            DebugCommand::Info => CommandModel::Info,
            DebugCommand::Breakpoints => CommandModel::Breakpoints,
            DebugCommand::SetBreakpoint(n) => CommandModel::SetBreakpoint(n@),
            DebugCommand::ClearBreakpoint(n) => CommandModel::ClearBreakpoint(n@),
            DebugCommand::Quit => CommandModel::Quit,
            DebugCommand::Unknown => CommandModel::Unknown,
        }
    }
}

/// The first blank-separated word of the trimmed line, and the rest of
/// the line after the blanks that follow it.
pub open spec fn spec_first_word(t: Seq<char>) -> Seq<char> {
    t.subrange(0, word_end(t, 0))
}

pub open spec fn word_end(s: Seq<char>, i: int) -> int
    decreases s.len() - i,
{
    if i < 0 || i >= s.len() {
        s.len() as int
    } else if s[i] == ' ' || s[i] == '\t' {
        i
    } else {
        word_end(s, i + 1)
    }
}

pub open spec fn word_start(s: Seq<char>, i: int) -> int
    decreases s.len() - i,
{
    if i < 0 || i >= s.len() {
        s.len() as int
    } else if s[i] == ' ' || s[i] == '\t' {
        word_start(s, i + 1)
    } else {
        i
    }
}

/// The argument of a two-part command: what follows the first word and
/// the blanks after it.
pub open spec fn spec_argument(t: Seq<char>) -> Seq<char> {
    t.subrange(word_start(t, word_end(t, 0)), t.len() as int)
}

/// The command a line of input stands for.  Single words select the
/// action; `break` and `clear` carry the rest of the line as a scenario
/// name.
pub open spec fn spec_parse_command(input: Seq<char>) -> CommandModel {
    let t = crate::text::spec_trim(input);
    let w = spec_first_word(t);
    if w.len() == 0 {
        CommandModel::Unknown
    } else if w == "c"@ || w == "continue"@ {
        CommandModel::Continue
    } else if w == "n"@ || w == "next"@ || w == "step"@ {
        CommandModel::Step
    } else if w == "r"@ || w == "repeat"@ {
        CommandModel::Repeat
    } else if w == "s"@ || w == "skip"@ {
        CommandModel::Skip
    } else if w == "h"@ || w == "help"@ {
        CommandModel::Help
    } else if w == "i"@ || w == "info"@ {
        CommandModel::Info
    } else if w == "b"@ || w == "breakpoints"@ {
        CommandModel::Breakpoints
    } else if w == "break"@ {
        if spec_argument(t).len() > 0 {
            CommandModel::SetBreakpoint(spec_argument(t))
        } else {
            CommandModel::Unknown
        }
    } else if w == "clear"@ {
        if spec_argument(t).len() > 0 {
            CommandModel::ClearBreakpoint(spec_argument(t))
        } else {
            CommandModel::Unknown
        }
    } else if w == "q"@ || w == "quit"@ {
        CommandModel::Quit
    } else {
        CommandModel::Unknown
    }
}

proof fn lemma_word_end_at(s: Seq<char>, i: int, j: int)
    requires
        0 <= i <= j <= s.len(),
        forall|k: int| i <= k < j ==> !(s[k] == ' ' || s[k] == '\t'),
        j < s.len() ==> (s[j] == ' ' || s[j] == '\t'),
    ensures
        word_end(s, i) == j,
    decreases j - i,
{
    if i < j {
        lemma_word_end_at(s, i + 1, j);
    }
}

proof fn lemma_word_start_at(s: Seq<char>, i: int, j: int)
    requires
        0 <= i <= j <= s.len(),
        forall|k: int| i <= k < j ==> (s[k] == ' ' || s[k] == '\t'),
        j < s.len() ==> !(s[j] == ' ' || s[j] == '\t'),
    ensures
        word_start(s, i) == j,
    decreases j - i,
{
    if i < j {
        lemma_word_start_at(s, i + 1, j);
    }
}

fn is_blank(c: char) -> (r: bool)
    ensures
        r == (c == ' ' || c == '\t'),
{
    c == ' ' || c == '\t'
}

/// Parse one debugger command line.
fn parse_command_line(input: &str) -> (c: DebugCommand)
    ensures
        c@ == spec_parse_command(input@),
{
    let t = trim(input);
    let ts = t.as_str();
    let n = ts.unicode_len();
    let mut e: usize = 0;
    while e < n && !is_blank(ts.get_char(e))
        invariant
            e <= n,
            n == t@.len(),
            ts@ == t@,
            forall|k: int| 0 <= k < e ==> !(t@[k] == ' ' || t@[k] == '\t'),
        decreases n - e,
    {
        e = e + 1;
    }
    proof {
        lemma_word_end_at(t@, 0, e as int);
    }
    let w = ts.substring_char(0, e);
    proof {
        assert(w@ =~= spec_first_word(t@));
        reveal_strlit("c");
        reveal_strlit("continue");
        reveal_strlit("n");
        reveal_strlit("next");
        reveal_strlit("step");
        reveal_strlit("r");
        reveal_strlit("repeat");
        reveal_strlit("s");
        reveal_strlit("skip");
        reveal_strlit("h");
        reveal_strlit("help");
        reveal_strlit("i");
        reveal_strlit("info");
        reveal_strlit("b");
        reveal_strlit("breakpoints");
        reveal_strlit("break");
        reveal_strlit("clear");
        reveal_strlit("q");
        reveal_strlit("quit");
    }
    if e == 0 {
        return DebugCommand::Unknown;
    }
    if str_eq(w, "c") || str_eq(w, "continue") {
        DebugCommand::Continue
    } else if str_eq(w, "n") || str_eq(w, "next") || str_eq(w, "step") {
        DebugCommand::Step
    } else if str_eq(w, "r") || str_eq(w, "repeat") {
        DebugCommand::Repeat
    } else if str_eq(w, "s") || str_eq(w, "skip") {
        DebugCommand::Skip
    } else if str_eq(w, "h") || str_eq(w, "help") {
        DebugCommand::Help
    } else if str_eq(w, "i") || str_eq(w, "info") {
        DebugCommand::Info
    } else if str_eq(w, "b") || str_eq(w, "breakpoints") {
        DebugCommand::Breakpoints
    } else if str_eq(w, "break") || str_eq(w, "clear") {
        let mut a: usize = e;
        while a < n && is_blank(ts.get_char(a))
            invariant
                e <= a <= n,
                n == t@.len(),
                ts@ == t@,
                forall|k: int| e <= k < a ==> (t@[k] == ' ' || t@[k] == '\t'),
            decreases n - a,
        {
            a = a + 1;
        }
        proof {
            lemma_word_start_at(t@, e as int, a as int);
        }
        let arg = String::from_str(ts.substring_char(a, n));
        proof {
            assert(arg@ =~= spec_argument(t@));
        }
        if a == n {
            DebugCommand::Unknown
        } else if str_eq(w, "break") {
            DebugCommand::SetBreakpoint(arg)
        } else {
            DebugCommand::ClearBreakpoint(arg)
        }
    } else if str_eq(w, "q") || str_eq(w, "quit") {
        DebugCommand::Quit
    } else {
        DebugCommand::Unknown
    }
}

/// A snapshot of one step of one scenario, stamped when taken.
#[derive(Debug)]
pub struct ExecutionSnapshot {
    pub scenario_name: String,
    pub step_index: usize,
    pub step_text: String,
    pub step_status: crate::execution::result::Status,
    pub step_output: Option<String>,
    pub timestamp: String,
}

impl ExecutionSnapshot {
    /// Snapshot the given step of a scenario, if there is one.
    pub fn from_scenario_step(scenario: &ScenarioResult, step_index: usize) -> (r: Option<
        ExecutionSnapshot,
    >)
        ensures
            match r {
                Some(s) => {
                    &&& step_index < scenario.steps@.len()
                    &&& s.scenario_name@ == scenario.name@
                    &&& s.step_index == step_index
                    &&& s.step_text@ == scenario.steps@[step_index as int].text@
                    &&& s.step_status == scenario.steps@[step_index as int].status
                },
                None => step_index >= scenario.steps@.len(),
            },
    {
        if step_index >= scenario.steps.len() {
            return None;
        }
        let step = &scenario.steps[step_index];
        let output = match &step.output {
            Some(o) => Some(o.clone()),
            None => None,
        };
        Some(
            ExecutionSnapshot {
                scenario_name: scenario.name.clone(),
                step_index,
                step_text: step.text.clone(),
                step_status: step.status,
                step_output: output,
                timestamp: now_rfc3339(),
            },
        )
    }
}

/// The running record of an execution: snapshots and session variables.
#[derive(Debug)]
pub struct ExecutionState {
    pub snapshots: Vec<ExecutionSnapshot>,
    pub variables: KvMap<String>,
    pub current_snapshot: Option<ExecutionSnapshot>,
}

impl ExecutionState {
    pub open spec fn wf(self) -> bool {
        self.variables.wf()
    }

    pub fn new() -> (s: ExecutionState)
        ensures
            s.snapshots@.len() == 0,
            s.variables.entries@.len() == 0,
            s.current_snapshot is None,
            s.wf(),
    {
        ExecutionState { snapshots: Vec::new(), variables: KvMap::new(), current_snapshot: None }
    }

    /// Record a snapshot: it is appended and becomes the current one.
    pub fn add_snapshot(&mut self, snapshot: ExecutionSnapshot)
        ensures
            final(self).snapshots@ == old(self).snapshots@.push(snapshot),
            final(self).current_snapshot == Some(snapshot),
            final(self).variables == old(self).variables,
    {
        let copy = ExecutionSnapshot {
            scenario_name: snapshot.scenario_name.clone(),
            step_index: snapshot.step_index,
            step_text: snapshot.step_text.clone(),
            step_status: snapshot.step_status,
            step_output: match &snapshot.step_output {
                Some(o) => Some(o.clone()),
                None => None,
            },
            timestamp: snapshot.timestamp.clone(),
        };
        proof {
            assert(copy == snapshot);
        }
        self.snapshots.push(copy);
        self.current_snapshot = Some(snapshot);
    }

    /// Bind a session variable.
    pub fn set_variable(&mut self, name: &str, value: &str)
        requires
            old(self).wf(),
        ensures
            final(self).wf(),
            final(self).variables.spec_get(name@) matches Some(v) && v@ == value@,
            forall|k: Seq<char>|
                k != name@ ==> #[trigger] final(self).variables.spec_get(k) == old(
                    self,
                ).variables.spec_get(k),
            final(self).snapshots == old(self).snapshots,
            final(self).current_snapshot == old(self).current_snapshot,
    {
        self.variables.insert(name, String::from_str(value));
    }

    /// Read a session variable.
    pub fn get_variable(&self, name: &str) -> (r: Option<&String>)
        requires
            self.wf(),
        ensures
            match r {
                Some(v) => self.variables.spec_get(name@) == Some(*v),
                None => self.variables.spec_get(name@) is None,
            },
    {
        self.variables.get(name)
    }
}

} // verus!
