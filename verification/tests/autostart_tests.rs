use frameanchor::autostart::{create_task_args, delete_task_args, query_task_args, run_level, TASK_NAME};

#[test]
fn protected_install_runs_task_at_highest_level() {
    assert_eq!(run_level(true), "HIGHEST");
    assert_eq!(run_level(false), "LIMITED");
}

#[test]
fn create_args_quote_the_executable_and_force_replace() {
    let args = create_task_args(r"C:\Program Files\PaceDock\PaceDock.exe", true);
    assert_eq!(
        args,
        vec![
            "/Create",
            "/TN",
            "PaceDock",
            "/SC",
            "ONLOGON",
            "/RL",
            "HIGHEST",
            "/TR",
            "\"C:\\Program Files\\PaceDock\\PaceDock.exe\"",
            "/F",
        ]
    );
}

#[test]
fn writable_location_is_downgraded_to_limited() {
    let args = create_task_args(r"D:\portable\PaceDock.exe", false);
    assert_eq!(args[6], "LIMITED");
    assert_eq!(args[8], "\"D:\\portable\\PaceDock.exe\"");
}

#[test]
fn delete_and_query_name_the_task() {
    assert_eq!(TASK_NAME, "PaceDock");
    assert_eq!(delete_task_args(), vec!["/Delete", "/TN", "PaceDock", "/F"]);
    assert_eq!(query_task_args(), vec!["/Query", "/TN", "PaceDock"]);
}
