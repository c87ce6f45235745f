use dls_ecommerce::supervisor::{outcome_log_line, startup_banner, supervise_outcome, SpawnOutcome};

#[test]
fn banner_announces_the_launch_attempt() {
    assert_eq!(startup_banner(), "[Next SSR] Iniciando servidor interno...");
}

#[test]
fn started_child_logs_the_success_line() {
    let line = outcome_log_line(&SpawnOutcome::Started);
    assert_eq!(line, "[Next SSR] Servidor iniciado.");
}

#[test]
fn failed_spawn_logs_the_os_error_text() {
    let err = String::from("No such file or directory (os error 2)");
    let line = outcome_log_line(&SpawnOutcome::Failed(err));
    assert_eq!(
        line,
        "[Next SSR] Falha ao iniciar servidor: No such file or directory (os error 2)"
    );
    assert!(line.contains("No such file or directory"));
}

#[test]
fn failed_spawn_is_non_fatal_to_the_shell() {
    let err = String::from("Permission denied (os error 13)");
    let (line, proceed) = supervise_outcome(&SpawnOutcome::Failed(err));
    assert!(proceed);
    assert!(line.contains("Permission denied"));
}

#[test]
fn started_child_lets_the_shell_proceed() {
    let (line, proceed) = supervise_outcome(&SpawnOutcome::Started);
    assert!(proceed);
    assert_eq!(line, "[Next SSR] Servidor iniciado.");
}
