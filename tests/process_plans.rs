use sidecar_supervisor::parse::{listening_pids, parse_pid_lines};
use sidecar_supervisor::process::{
    is_process_running, kill_process_on_port, kill_process_tree, liveness_probe,
    KillAction, Platform, ProbeOutput, TerminationStrategy, PROCESS_KILL_DELAY_MS,
};

fn strings(v: &[&str]) -> Vec<String> {
    v.iter().map(|s| s.to_string()).collect()
}

fn run_of(a: &KillAction) -> (&str, Vec<String>) {
    match a {
        KillAction::Run(c) => (c.program.as_str(), c.args.clone()),
        other => panic!("expected a command, found {:?}", other),
    }
}

#[test]
fn test_termination_strategy_debug() {
    let strategy = TerminationStrategy::for_pid(12345, Platform::Linux);
    let debug_str = format!("{:?}", strategy);
    assert!(debug_str.contains("TerminationStrategy"));
}

#[test]
fn test_termination_strategy_for_pid_windows() {
    let strategy = TerminationStrategy::for_pid(12345, Platform::Windows);
    assert_eq!(strategy.graceful_cmd, "taskkill");
    assert!(strategy.graceful_args.contains(&"/F".to_string()));
    assert!(strategy.graceful_args.contains(&"/PID".to_string()));
    assert!(strategy.graceful_args.contains(&"12345".to_string()));
    assert_eq!(strategy.force_cmd, "taskkill");
    assert!(strategy.force_args.contains(&"/F".to_string()));
    assert!(strategy.force_args.contains(&"/PID".to_string()));
    assert!(strategy.force_args.contains(&"12345".to_string()));
}

#[test]
fn test_termination_strategy_for_pid_unix() {
    for platform in [Platform::Linux, Platform::MacOs] {
        let strategy = TerminationStrategy::for_pid(12345, platform);
        assert_eq!(strategy.graceful_cmd, "kill");
        assert!(strategy.graceful_args.contains(&"-TERM".to_string()));
        assert!(strategy.graceful_args.contains(&"12345".to_string()));
        assert_eq!(strategy.force_cmd, "kill");
        assert!(strategy.force_args.contains(&"-KILL".to_string()));
        assert!(strategy.force_args.contains(&"12345".to_string()));
    }
}

#[test]
fn test_is_process_running_nonexistent_pid() {
    let result = is_process_running(999999, Platform::Linux, &None);
    assert!(!result);
    let failed = Some(ProbeOutput { success: false, stdout: vec![] });
    assert!(!is_process_running(999999, Platform::Linux, &failed));
}

#[test]
fn test_kill_process_on_port_unused_port() {
    let plan = kill_process_on_port(65432, Platform::Linux);
    assert_eq!(plan.len(), 3);
    assert_eq!(run_of(&plan[0]), ("fuser", strings(&["-k", "-TERM", "65432/tcp"])));
    assert!(matches!(plan[1], KillAction::Pause(PROCESS_KILL_DELAY_MS)));
    assert_eq!(run_of(&plan[2]), ("fuser", strings(&["-k", "65432/tcp"])));
}

#[test]
fn test_kill_process_tree_nonexistent_pid() {
    let plan = kill_process_tree(999999, Platform::Linux);
    assert_eq!(plan.len(), 4);
    match &plan[0] {
        KillAction::KillTreeOfListed(c) => {
            assert_eq!(c.program, "pgrep");
            assert_eq!(c.args, strings(&["-P", "999999"]));
        }
        other => panic!("unexpected step {:?}", other),
    }
    assert_eq!(run_of(&plan[1]), ("kill", strings(&["-TERM", "999999"])));
    assert!(matches!(plan[2], KillAction::Pause(500)));
    assert_eq!(run_of(&plan[3]), ("kill", strings(&["-KILL", "999999"])));
}

#[test]
fn test_windows_commands() {
    let tree = kill_process_tree(1, Platform::Windows);
    assert_eq!(run_of(&tree[0]).0, "taskkill");
    assert_eq!(liveness_probe(1, Platform::Windows).program, "tasklist");
    match &kill_process_on_port(1, Platform::Windows)[0] {
        KillAction::TerminateListening { query, port } => {
            assert_eq!(query.program, "netstat");
            assert_eq!(query.args, strings(&["-ano", "-p", "tcp"]));
            assert_eq!(*port, 1);
        }
        other => panic!("unexpected step {:?}", other),
    }
    assert_eq!(TerminationStrategy::for_pid(1, Platform::Windows).force_cmd, "taskkill");
}

#[test]
fn test_kill_process_tree_platform_windows() {
    let plan = kill_process_tree(999999, Platform::Windows);
    assert_eq!(plan.len(), 1);
    assert_eq!(run_of(&plan[0]), ("taskkill", strings(&["/F", "/T", "/PID", "999999"])));
}

#[test]
fn test_macos_commands() {
    let tree = kill_process_tree(1, Platform::MacOs);
    match &tree[0] {
        KillAction::KillTreeOfListed(c) => assert_eq!(c.program, "pgrep"),
        other => panic!("unexpected step {:?}", other),
    }
    assert_eq!(run_of(&tree[1]).0, "kill");
    assert_eq!(run_of(&tree[3]).0, "kill");
    match &kill_process_on_port(1, Platform::MacOs)[0] {
        KillAction::TerminateListed(c) => assert_eq!(c.program, "lsof"),
        other => panic!("unexpected step {:?}", other),
    }
}

#[test]
fn test_linux_commands() {
    let tree = kill_process_tree(1, Platform::Linux);
    match &tree[0] {
        KillAction::KillTreeOfListed(c) => assert_eq!(c.program, "pgrep"),
        other => panic!("unexpected step {:?}", other),
    }
    assert_eq!(run_of(&tree[1]).0, "kill");
    assert_eq!(run_of(&tree[3]).0, "kill");
    assert_eq!(run_of(&kill_process_on_port(1, Platform::Linux)[0]).0, "fuser");
}

#[test]
fn test_termination_strategy_creation() {
    let strategy = TerminationStrategy::for_pid(1, Platform::Linux);
    assert!(!strategy.graceful_cmd.is_empty());
    assert!(!strategy.force_cmd.is_empty());
    assert!(!strategy.graceful_args.is_empty());
    assert!(!strategy.force_args.is_empty());
}

#[test]
fn test_public_api_functions() {
    let pid = 999998;
    assert!(!is_process_running(pid, Platform::Linux, &None));
    let tree = kill_process_tree(pid, Platform::MacOs);
    assert_eq!(tree.len(), 4);
    let plan = kill_process_on_port(65428, Platform::MacOs);
    match &plan[0] {
        KillAction::TerminateListed(c) => {
            assert_eq!(c.args, strings(&["-ti:65428"]));
        }
        other => panic!("unexpected step {:?}", other),
    }
}

#[test]
fn macos_tree_kill_lists_children_first() {
    let plan = kill_process_tree(4242, Platform::MacOs);
    match &plan[0] {
        KillAction::KillTreeOfListed(c) => assert_eq!(c.args, strings(&["-P", "4242"])),
        other => panic!("unexpected step {:?}", other),
    }
    assert_eq!(run_of(&plan[1]), ("kill", strings(&["-TERM", "4242"])));
    assert!(matches!(plan[2], KillAction::Pause(500)));
    assert_eq!(run_of(&plan[3]), ("kill", strings(&["-KILL", "4242"])));
}

#[test]
fn strategy_steps_escalate() {
    let steps = TerminationStrategy::for_pid(7, Platform::Windows).steps();
    assert_eq!(steps.len(), 3);
    assert_eq!(run_of(&steps[0]), ("taskkill", strings(&["/F", "/PID", "7"])));
    assert!(matches!(steps[1], KillAction::Pause(500)));
    assert_eq!(run_of(&steps[2]), ("taskkill", strings(&["/F", "/PID", "7"])));
}

#[test]
fn liveness_probe_commands() {
    let posix = liveness_probe(31, Platform::Linux);
    assert_eq!(posix.program, "kill");
    assert_eq!(posix.args, strings(&["-0", "31"]));
    let windows = liveness_probe(31, Platform::Windows);
    assert_eq!(windows.args, strings(&["/FI", "PID eq 31"]));
}

#[test]
fn liveness_reading_per_platform() {
    let ok_empty = Some(ProbeOutput { success: true, stdout: vec![] });
    assert!(is_process_running(4321, Platform::Linux, &ok_empty));
    assert!(is_process_running(4321, Platform::MacOs, &ok_empty));
    assert!(!is_process_running(4321, Platform::Windows, &ok_empty));
    let listed = Some(ProbeOutput { success: true, stdout: b"main.exe   4321 Console".to_vec() });
    assert!(is_process_running(4321, Platform::Windows, &listed));
    let other = Some(ProbeOutput { success: true, stdout: b"INFO: No tasks are running".to_vec() });
    assert!(!is_process_running(4321, Platform::Windows, &other));
}

#[test]
fn pid_lines_are_trimmed_and_filtered() {
    assert_eq!(parse_pid_lines(b"123\n 456 \r\nabc\n\n+7\n4294967295\n4294967296\n89"), vec![123, 456, 7, 4294967295, 89]);
    assert_eq!(parse_pid_lines(b""), Vec::<u32>::new());
    assert_eq!(parse_pid_lines(b"12a\n-3\n"), Vec::<u32>::new());
}

#[test]
fn listening_entries_for_the_port() {
    let table = b"  Proto  Local Address          Foreign Address        State           PID\r\n  TCP    0.0.0.0:40000          0.0.0.0:0              LISTENING       5120\r\n  TCP    127.0.0.1:40000        127.0.0.1:5000         ESTABLISHED     77\r\n  TCP    0.0.0.0:4000           0.0.0.0:0              LISTENING       66\r\n  TCP    [::]:40000             [::]:0                 LISTENING       9\r\n";
    assert_eq!(listening_pids(table, 40000), vec![5120, 9]);
    assert_eq!(listening_pids(table, 4000), vec![5120, 66, 9]);
    assert_eq!(listening_pids(table, 1234), Vec::<u32>::new());
}

#[test]
fn decimal_arguments_of_edge_pids() {
    let zero = TerminationStrategy::for_pid(0, Platform::Linux);
    assert_eq!(zero.graceful_args, strings(&["-TERM", "0"]));
    let top = TerminationStrategy::for_pid(u32::MAX, Platform::Linux);
    assert_eq!(top.force_args, strings(&["-KILL", "4294967295"]));
    let ten = TerminationStrategy::for_pid(10, Platform::Windows);
    assert_eq!(ten.graceful_args, strings(&["/F", "/PID", "10"]));
}

#[test]
fn listings_that_are_not_text_name_nothing() {
    assert_eq!(parse_pid_lines(b"12\n\xff\n34"), Vec::<u32>::new());
    assert_eq!(parse_pid_lines("12\n\u{e9}\n34".as_bytes()), vec![12, 34]);
}
