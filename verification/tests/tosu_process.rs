use hanami_companion::tosu::process::{
    grant_arguments, grant_memory_access, has_effective_ptrace_capability, indicates_memory_access_failure,
    launch_target, memory_access_message, memory_access_status,
    observed_memory_access, ownership, parse_wrapper_exec_target, stop_permitted,
    CapabilityProbe, GrantArgument, GrantAttempt, MemoryAccessError, ProcessError, ProcessOwnership, TosuMemoryAccess,
};

#[test]
fn only_companion_owned_processes_may_be_terminated() {
    assert!(ProcessOwnership::CompanionOwned.may_terminate());
    assert!(!ProcessOwnership::External.may_terminate());
}

#[test]
fn resolves_an_absolute_native_target_from_a_shell_wrapper() {
    let script = r#"#!/bin/bash
exec /opt/tosu/tosu --update=false "$@"
"#;
    assert_eq!(
        parse_wrapper_exec_target(script),
        Some("/opt/tosu/tosu".to_string())
    );
    assert_eq!(parse_wrapper_exec_target("exec tosu --flag"), None);
}

#[test]
fn wrapper_targets_lose_quotes_and_skip_other_lines() {
    assert_eq!(
        parse_wrapper_exec_target("#!/bin/sh\r\n  exec   '/usr/lib/tosu/tosu' \"$@\"\r\n"),
        Some("/usr/lib/tosu/tosu".to_string())
    );
    assert_eq!(
        parse_wrapper_exec_target("echo exec /not/this\nexec relative\nexec \"/second/tosu\"\n"),
        Some("/second/tosu".to_string())
    );
    assert_eq!(parse_wrapper_exec_target(""), None);
    assert_eq!(parse_wrapper_exec_target("exec\n"), None);
    assert_eq!(parse_wrapper_exec_target("execute /opt/tosu\n"), None);
}

#[test]
fn requires_an_effective_ptrace_capability() {
    assert!(has_effective_ptrace_capability(
        "/opt/tosu/tosu cap_sys_ptrace=eip\n"
    ));
    assert!(has_effective_ptrace_capability(
        "/opt/tosu/tosu cap_sys_ptrace+ep\n"
    ));
    assert!(!has_effective_ptrace_capability("/opt/tosu/tosu\n"));
    assert!(!has_effective_ptrace_capability(
        "/opt/tosu/tosu cap_net_bind_service=ep\n"
    ));
}

#[test]
fn capability_listings_are_read_entry_by_entry() {
    assert!(has_effective_ptrace_capability(
        "/opt/tosu/tosu cap_net_raw=ep,cap_sys_ptrace=eip"
    ));
    assert!(!has_effective_ptrace_capability("/opt/tosu/tosu cap_sys_ptrace=ip"));
    assert!(!has_effective_ptrace_capability("cap_sys_ptrace=eip"));
    assert!(!has_effective_ptrace_capability("/opt/tosu/tosu cap_sys_ptracex=eip"));
    assert!(!has_effective_ptrace_capability(""));
}

#[test]
fn recognizes_runtime_memory_access_failures_without_assuming_them() {
    assert!(indicates_memory_access_failure(
        "failed to read address 40000000 of size 600000"
    ));
    assert!(indicates_memory_access_failure(
        "ptrace permission denied while scanning lazer"
    ));
    assert!(!indicates_memory_access_failure(
        "Searching for osu! process..."
    ));
}

#[test]
fn memory_failure_detection_ignores_case() {
    assert!(indicates_memory_access_failure("Missing CAP_SYS_PTRACE"));
    assert!(!indicates_memory_access_failure("ptrace attached"));
}

#[test]
fn memory_access_follows_the_capability_probe() {
    assert_eq!(memory_access_status(&CapabilityProbe::NotLinux), TosuMemoryAccess::NotApplicable);
    assert_eq!(memory_access_status(&CapabilityProbe::NoTarget), TosuMemoryAccess::Unavailable);
    assert_eq!(memory_access_status(&CapabilityProbe::NoTool), TosuMemoryAccess::Unavailable);
    assert_eq!(memory_access_status(&CapabilityProbe::Failed), TosuMemoryAccess::Unavailable);
    assert_eq!(
        memory_access_status(&CapabilityProbe::Listed("/opt/tosu cap_sys_ptrace=eip".into())),
        TosuMemoryAccess::Available
    );
    assert_eq!(
        memory_access_status(&CapabilityProbe::Listed("/opt/tosu".into())),
        TosuMemoryAccess::Unknown
    );
}

#[test]
fn reported_failures_mark_access_as_possibly_required() {
    assert_eq!(
        observed_memory_access(TosuMemoryAccess::Unknown, true),
        TosuMemoryAccess::PossiblyRequired
    );
    assert_eq!(
        observed_memory_access(TosuMemoryAccess::Available, true),
        TosuMemoryAccess::Available
    );
    assert_eq!(
        observed_memory_access(TosuMemoryAccess::Unknown, false),
        TosuMemoryAccess::Unknown
    );
}

#[test]
fn granting_memory_access_reports_each_failure() {
    assert_eq!(grant_memory_access(GrantAttempt::NotLinux), Err(MemoryAccessError::UnsupportedPlatform));
    assert_eq!(
        grant_memory_access(GrantAttempt::NoTarget { launcher_found: true }),
        Err(MemoryAccessError::UnsupportedLauncher)
    );
    assert_eq!(
        grant_memory_access(GrantAttempt::NoTarget { launcher_found: false }),
        Err(MemoryAccessError::NotInstalled)
    );
    assert_eq!(grant_memory_access(GrantAttempt::NoTools), Err(MemoryAccessError::ToolsUnavailable));
    assert_eq!(
        grant_memory_access(GrantAttempt::PromptFailed("no pkexec".into())),
        Err(MemoryAccessError::Prompt("no pkexec".into()))
    );
    assert_eq!(
        grant_memory_access(GrantAttempt::Prompted { approved: false, access_after: TosuMemoryAccess::Available }),
        Err(MemoryAccessError::AuthorizationDenied)
    );
    assert_eq!(
        grant_memory_access(GrantAttempt::Prompted { approved: true, access_after: TosuMemoryAccess::Unknown }),
        Err(MemoryAccessError::VerificationFailed)
    );
    assert_eq!(
        grant_memory_access(GrantAttempt::Prompted { approved: true, access_after: TosuMemoryAccess::Available }),
        Ok(())
    );
}

#[test]
fn memory_access_messages_explain_the_error() {
    assert_eq!(
        memory_access_message(&MemoryAccessError::NotInstalled),
        "Install tosu before granting osu! memory access."
    );
    assert_eq!(
        memory_access_message(&MemoryAccessError::Prompt("io".into())),
        "The system authorization prompt could not be opened."
    );
    assert_eq!(
        memory_access_message(&MemoryAccessError::UnsupportedPlatform),
        "This platform does not require Linux ptrace access."
    );
}

#[test]
fn launching_and_stopping_respect_ownership() {
    assert_eq!(launch_target(true, Some("/usr/bin/tosu".into())), Err(ProcessError::AlreadyRunning));
    assert_eq!(launch_target(false, None), Err(ProcessError::NotInstalled));
    assert_eq!(launch_target(false, Some("/usr/bin/tosu".into())), Ok("/usr/bin/tosu".to_string()));
    assert_eq!(stop_permitted(false), Err(ProcessError::NotOwned));
    assert_eq!(stop_permitted(true), Ok(()));
    assert_eq!(ownership(true), ProcessOwnership::CompanionOwned);
    assert_eq!(ownership(false), ProcessOwnership::External);
}

#[test]
fn process_errors_have_messages() {
    assert_eq!(ProcessError::NotInstalled.message(), "tosu was not found on PATH");
    assert_eq!(
        ProcessError::Launch("permission denied".into()).message(),
        "failed to launch tosu: permission denied"
    );
    assert_eq!(
        ProcessError::NotOwned.message(),
        "the running tosu process was not launched by Companion"
    );
}

#[test]
fn the_grant_prompt_runs_setcap_with_the_ptrace_capability() {
    assert_eq!(
        grant_arguments(),
        vec![
            GrantArgument::Setcap,
            GrantArgument::Text("cap_sys_ptrace=eip".into()),
            GrantArgument::Target,
        ]
    );
}
