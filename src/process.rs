use vstd::prelude::*;
use vstd::string::StringExecFns;

use crate::text::{contains_bytes, decimal, decimal_bytes, occurs_in};

verus! {

/// Pause between the graceful and the forced termination signal, in milliseconds.
pub const PROCESS_KILL_DELAY_MS: u64 = 500;

/// The operating system family whose tools are used to control processes.
#[derive(Debug, PartialEq, Eq, Structural, Clone, Copy)]
pub enum Platform {
    Windows,
    MacOs,
    Linux,
}

/// The decimal text of `n`.
pub open spec fn decimal_text(n: nat) -> Seq<char> {
    decimal(n).map_values(|b: u8| b as char)
}

fn digit_text(d: u32) -> (r: &'static str)
    requires
        d < 10,
    ensures
        r@ == seq![(48 + d) as char],
{
    match d {
        0 => {
            proof {
                reveal_strlit("0");
            }
            "0"
        },
        1 => {
            proof {
                reveal_strlit("1");
            }
            "1"
        },
        2 => {
            proof {
                reveal_strlit("2");
            }
            "2"
        },
        3 => {
            proof {
                reveal_strlit("3");
            }
            "3"
        },
        4 => {
            proof {
                reveal_strlit("4");
            }
            "4"
        },
        5 => {
            proof {
                reveal_strlit("5");
            }
            "5"
        },
        6 => {
            proof {
                reveal_strlit("6");
            }
            "6"
        },
        7 => {
            proof {
                reveal_strlit("7");
            }
            "7"
        },
        8 => {
            proof {
                reveal_strlit("8");
            }
            "8"
        },
        _ => {
            proof {
                reveal_strlit("9");
            }
            "9"
        },
    }
}

/// The decimal text of `n`, most significant digit first.
pub(crate) fn number_text(n: u32) -> (r: String)
    ensures
        r@ == decimal_text(n as nat),
    decreases n,
{
    if n < 10 {
        let r = String::from_str(digit_text(n));
        assert(r@ =~= decimal_text(n as nat));
        r
    } else {
        let mut r = number_text(n / 10);
        r.append(digit_text(n % 10));
        assert(decimal(n as nat) == decimal((n / 10) as nat).push((48 + n % 10) as u8));
        assert(r@ =~= decimal_text(n as nat));
        r
    }
}

/// An external command: a program and its arguments.
#[derive(Debug)]
pub struct CommandSpec {
    pub program: String,
    pub args: Vec<String>,
}

/// The arguments of a command as text.
pub open spec fn args_view(args: Vec<String>) -> Seq<Seq<char>> {
    args@.map_values(|a: String| a@)
}

pub(crate) fn text(s: &str) -> (r: String)
    ensures
        r@ == s@,
{
    String::from_str(s)
}

fn command(program: &str, args: Vec<String>) -> (r: CommandSpec)
    ensures
        r.program@ == program@,
        r.args == args,
{
    CommandSpec { program: text(program), args }
}

/// One step of a termination plan, carried out in order by the caller.
#[derive(Debug)]
pub enum KillAction {
    /// Run the command and ignore how it ends.
    Run(CommandSpec),
    /// Sleep for the given number of milliseconds.
    Pause(u64),
    /// Run the query; for each pid that `parse_pid_lines` reads from its output,
    /// carry out `kill_process_tree` of that pid.
    KillTreeOfListed(CommandSpec),
    /// Run the query; for each pid that `parse_pid_lines` reads from its output,
    /// carry out the `TerminationStrategy` of that pid.
    TerminateListed(CommandSpec),
    /// Run the query; for each pid that `listening_pids` reads from its output for
    /// `port`, carry out the `TerminationStrategy` of that pid.
    TerminateListening { query: CommandSpec, port: u16 },
}

/// Escalating termination of one process: a graceful request, a pause, then a
/// forced kill.
#[derive(Debug)]
pub struct TerminationStrategy {
    pub graceful_cmd: String,
    pub graceful_args: Vec<String>,
    pub force_cmd: String,
    pub force_args: Vec<String>,
}

impl TerminationStrategy {
    /// The strategy for `pid` with the tools of `platform`.
    ///
    /// On Windows both requests are `taskkill /F /PID <pid>`; elsewhere they are
    /// `kill -TERM <pid>` and `kill -KILL <pid>`.
    pub fn for_pid(pid: u32, platform: Platform) -> (r: Self)
        ensures
            platform == Platform::Windows ==> {
                &&& r.graceful_cmd@ == "taskkill"@
                &&& args_view(r.graceful_args) == seq!["/F"@, "/PID"@, decimal_text(pid as nat)]
                &&& r.force_cmd@ == "taskkill"@
                &&& args_view(r.force_args) == seq!["/F"@, "/PID"@, decimal_text(pid as nat)]
            },
            platform != Platform::Windows ==> {
                &&& r.graceful_cmd@ == "kill"@
                &&& args_view(r.graceful_args) == seq!["-TERM"@, decimal_text(pid as nat)]
                &&& r.force_cmd@ == "kill"@
                &&& args_view(r.force_args) == seq!["-KILL"@, decimal_text(pid as nat)]
            },
    {
        match platform {
            Platform::Windows => {
                let graceful_args = vec![text("/F"), text("/PID"), number_text(pid)];
                let force_args = vec![text("/F"), text("/PID"), number_text(pid)];
                proof {
                    assert(args_view(graceful_args) =~= seq!["/F"@, "/PID"@, decimal_text(pid as nat)]);
                    assert(args_view(force_args) =~= seq!["/F"@, "/PID"@, decimal_text(pid as nat)]);
                }
                TerminationStrategy {
                    graceful_cmd: text("taskkill"),
                    graceful_args,
                    force_cmd: text("taskkill"),
                    force_args,
                }
            },
            _ => {
                let graceful_args = vec![text("-TERM"), number_text(pid)];
                let force_args = vec![text("-KILL"), number_text(pid)];
                proof {
                    assert(args_view(graceful_args) =~= seq!["-TERM"@, decimal_text(pid as nat)]);
                    assert(args_view(force_args) =~= seq!["-KILL"@, decimal_text(pid as nat)]);
                }
                TerminationStrategy {
                    graceful_cmd: text("kill"),
                    graceful_args,
                    force_cmd: text("kill"),
                    force_args,
                }
            },
        }
    }
}

/// A termination step as plain values.
pub enum StepView {
    Run(Seq<char>, Seq<Seq<char>>),
    Pause(u64),
    KillTreeOfListed(Seq<char>, Seq<Seq<char>>),
    TerminateListed(Seq<char>, Seq<Seq<char>>),
    TerminateListening(Seq<char>, Seq<Seq<char>>, u16),
}

pub open spec fn step_view(a: KillAction) -> StepView {
    match a {
        KillAction::Run(c) => StepView::Run(c.program@, args_view(c.args)),
        KillAction::Pause(ms) => StepView::Pause(ms),
        KillAction::KillTreeOfListed(c) => StepView::KillTreeOfListed(c.program@, args_view(c.args)),
        KillAction::TerminateListed(c) => StepView::TerminateListed(c.program@, args_view(c.args)),
        KillAction::TerminateListening { query, port } =>
            StepView::TerminateListening(query.program@, args_view(query.args), port),
    }
}

/// The plan as plain values.
pub open spec fn plan_view(plan: Vec<KillAction>) -> Seq<StepView> {
    plan@.map_values(|a: KillAction| step_view(a))
}

/// The steps of the escalating termination of `pid`.
pub open spec fn strategy_steps(pid: u32, platform: Platform) -> Seq<StepView> {
    if platform == Platform::Windows {
        seq![
            StepView::Run("taskkill"@, seq!["/F"@, "/PID"@, decimal_text(pid as nat)]),
            StepView::Pause(PROCESS_KILL_DELAY_MS),
            StepView::Run("taskkill"@, seq!["/F"@, "/PID"@, decimal_text(pid as nat)]),
        ]
    } else {
        seq![
            StepView::Run("kill"@, seq!["-TERM"@, decimal_text(pid as nat)]),
            StepView::Pause(PROCESS_KILL_DELAY_MS),
            StepView::Run("kill"@, seq!["-KILL"@, decimal_text(pid as nat)]),
        ]
    }
}

/// The steps that terminate `pid` and every process it spawned.
pub open spec fn tree_kill_steps(pid: u32, platform: Platform) -> Seq<StepView> {
    let ghost p = decimal_text(pid as nat);
    match platform {
        Platform::Windows => seq![StepView::Run("taskkill"@, seq!["/F"@, "/T"@, "/PID"@, p])],
        _ => seq![StepView::KillTreeOfListed("pgrep"@, seq!["-P"@, p])]
            + strategy_steps(pid, platform),
    }
}

/// The steps that terminate whatever holds the TCP port `port`.
pub open spec fn port_kill_steps(port: u16, platform: Platform) -> Seq<StepView> {
    let ghost p = decimal_text(port as nat);
    match platform {
        Platform::Windows => seq![
            StepView::TerminateListening("netstat"@, seq!["-ano"@, "-p"@, "tcp"@], port),
        ],
        Platform::MacOs => seq![StepView::TerminateListed("lsof"@, seq!["-ti:"@ + p])],
        Platform::Linux => seq![
            StepView::Run("fuser"@, seq!["-k"@, "-TERM"@, p + "/tcp"@]),
            StepView::Pause(PROCESS_KILL_DELAY_MS),
            StepView::Run("fuser"@, seq!["-k"@, p + "/tcp"@]),
        ],
    }
}

impl TerminationStrategy {
    /// The strategy as steps: the graceful request, the pause, the forced kill.
    pub fn steps(self) -> (r: Vec<KillAction>)
        ensures
            plan_view(r) == seq![
                StepView::Run(self.graceful_cmd@, args_view(self.graceful_args)),
                StepView::Pause(PROCESS_KILL_DELAY_MS),
                StepView::Run(self.force_cmd@, args_view(self.force_args)),
            ],
    {
        let graceful = CommandSpec { program: self.graceful_cmd, args: self.graceful_args };
        let force = CommandSpec { program: self.force_cmd, args: self.force_args };
        let r = vec![KillAction::Run(graceful), KillAction::Pause(PROCESS_KILL_DELAY_MS), KillAction::Run(force)];
        assert(plan_view(r) =~= seq![
            StepView::Run(self.graceful_cmd@, args_view(self.graceful_args)),
            StepView::Pause(PROCESS_KILL_DELAY_MS),
            StepView::Run(self.force_cmd@, args_view(self.force_args)),
        ]);
        r
    }
}

/// The termination steps for `pid`.
pub fn termination_steps(pid: u32, platform: Platform) -> (r: Vec<KillAction>)
    ensures
        plan_view(r) == strategy_steps(pid, platform),
{
    let strategy = TerminationStrategy::for_pid(pid, platform);
    let r = strategy.steps();
    assert(plan_view(r) =~= strategy_steps(pid, platform));
    r
}

/// The plan that terminates the process tree rooted at `pid`: its descendants
/// first, each with its own tree, then `pid` itself. Windows kills the tree in
/// one native call.
pub fn kill_process_tree(pid: u32, platform: Platform) -> (r: Vec<KillAction>)
    ensures
        plan_view(r) == tree_kill_steps(pid, platform),
{
    let ghost p = decimal_text(pid as nat);
    match platform {
        Platform::Windows => {
            let args = vec![text("/F"), text("/T"), text("/PID"), number_text(pid)];
            assert(args_view(args) =~= seq!["/F"@, "/T"@, "/PID"@, p]);
            let r = vec![KillAction::Run(command("taskkill", args))];
            assert(plan_view(r) =~= tree_kill_steps(pid, platform));
            r
        },
        _ => {
            let args = vec![text("-P"), number_text(pid)];
            assert(args_view(args) =~= seq!["-P"@, p]);
            let mut r = vec![KillAction::KillTreeOfListed(command("pgrep", args))];
            let ghost head = plan_view(r);
            let mut tail = termination_steps(pid, platform);
            let ghost tail_view = plan_view(tail);
            r.append(&mut tail);
            assert(plan_view(r) =~= head + tail_view);
            r
        },
    }
}

/// The plan that terminates whatever process holds the TCP port `port`.
pub fn kill_process_on_port(port: u16, platform: Platform) -> (r: Vec<KillAction>)
    ensures
        plan_view(r) == port_kill_steps(port, platform),
{
    let ghost p = decimal_text(port as nat);
    match platform {
        Platform::Windows => {
            let args = vec![text("-ano"), text("-p"), text("tcp")];
            assert(args_view(args) =~= seq!["-ano"@, "-p"@, "tcp"@]);
            let r = vec![KillAction::TerminateListening { query: command("netstat", args), port }];
            assert(plan_view(r) =~= port_kill_steps(port, platform));
            r
        },
        Platform::MacOs => {
            let mut spec = text("-ti:");
            let digits = number_text(port as u32);
            spec.append(digits.as_str());
            let args = vec![spec];
            assert(args_view(args) =~= seq!["-ti:"@ + p]);
            let r = vec![KillAction::TerminateListed(command("lsof", args))];
            assert(plan_view(r) =~= port_kill_steps(port, platform));
            r
        },
        Platform::Linux => {
            let mut spec = number_text(port as u32);
            spec.append("/tcp");
            let spec2 = spec.clone();
            let term_args = vec![text("-k"), text("-TERM"), spec];
            assert(args_view(term_args) =~= seq!["-k"@, "-TERM"@, p + "/tcp"@]);
            let kill_args = vec![text("-k"), spec2];
            assert(args_view(kill_args) =~= seq!["-k"@, p + "/tcp"@]);
            let r = vec![
                KillAction::Run(command("fuser", term_args)),
                KillAction::Pause(PROCESS_KILL_DELAY_MS),
                KillAction::Run(command("fuser", kill_args)),
            ];
            assert(plan_view(r) =~= port_kill_steps(port, platform));
            r
        },
    }
}

/// The command whose outcome tells whether `pid` is alive: `kill -0 <pid>`, or on
/// Windows `tasklist /FI "PID eq <pid>"`.
pub fn liveness_probe(pid: u32, platform: Platform) -> (r: CommandSpec)
    ensures
        platform == Platform::Windows ==> {
            &&& r.program@ == "tasklist"@
            &&& args_view(r.args) == seq!["/FI"@, "PID eq "@ + decimal_text(pid as nat)]
        },
        platform != Platform::Windows ==> {
            &&& r.program@ == "kill"@
            &&& args_view(r.args) == seq!["-0"@, decimal_text(pid as nat)]
        },
{
    if platform == Platform::Windows {
        let mut filter = text("PID eq ");
        let digits = number_text(pid);
        filter.append(digits.as_str());
        let args = vec![text("/FI"), filter];
        assert(args_view(args) =~= seq!["/FI"@, "PID eq "@ + decimal_text(pid as nat)]);
        command("tasklist", args)
    } else {
        let args = vec![text("-0"), number_text(pid)];
        assert(args_view(args) =~= seq!["-0"@, decimal_text(pid as nat)]);
        command("kill", args)
    }
}

/// How a probe command ended: whether it reported success, and what it wrote.
pub struct ProbeOutput {
    pub success: bool,
    pub stdout: Vec<u8>,
}

/// Whether the probe of `pid` shows it alive: a probe that could not run shows
/// nothing alive; on Windows the listing must also name the pid.
pub open spec fn running_from_probe(pid: u32, platform: Platform, outcome: Option<ProbeOutput>) -> bool {
    match outcome {
        None => false,
        Some(o) => o.success && (platform == Platform::Windows ==> occurs_in(o.stdout@, decimal(pid as nat))),
    }
}

/// Reads the outcome of `liveness_probe(pid, platform)`; `None` when the probe
/// could not be run at all.
pub fn is_process_running(pid: u32, platform: Platform, outcome: &Option<ProbeOutput>) -> (r: bool)
    ensures
        r == running_from_probe(pid, platform, *outcome),
{
    match outcome {
        None => false,
        Some(o) => {
            if !o.success {
                false
            } else if platform == Platform::Windows {
                let digits = decimal_bytes(pid);
                contains_bytes(o.stdout.as_slice(), digits.as_slice())
            } else {
                true
            }
        },
    }
}

} // verus!
