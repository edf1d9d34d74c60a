use runnable::{Definition, StaticRunner};

fn definition(label: &str) -> Definition {
    Definition {
        command: "cargo".to_string(),
        args: vec!["test".to_string(), "--all".to_string()],
        label: label.to_string(),
    }
}

#[test]
fn name_is_the_label() {
    assert_eq!(StaticRunner::new(definition("run tests")).name(), "run tests");
    assert_eq!(StaticRunner::new(definition("")).name(), "");
    assert_eq!(StaticRunner::new(definition("\u{1f980} build\n")).name(), "\u{1f980} build\n");
}

#[test]
fn name_survives_cloning() {
    let runner = StaticRunner::new(definition("lint"));
    let copy = runner.clone();
    assert_eq!(copy.name(), "lint");
    assert_eq!(runner.name(), "lint");
}

#[test]
fn exec_builds_the_spawn_request() {
    let runner = StaticRunner::new(definition("run tests"));
    let request = runner.exec(11, Some("/work".to_string()));
    assert_eq!(request.task_id, 11);
    assert!(!request.reuse_terminal);
    assert_eq!(request.label, "run tests");
    assert_eq!(request.command, "cargo");
    assert_eq!(request.args, vec!["test".to_string(), "--all".to_string()]);
    assert_eq!(request.cwd, Some("/work".to_string()));

    let bare = runner.exec(0, None);
    assert_eq!(bare.cwd, None);
    assert_eq!(bare.task_id, 0);
}
