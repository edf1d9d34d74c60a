use runnable::{
    Definition, OutputStream, Runnable, RunnableHandle, RunnableMetadata, RunnableToken, Source, SourceError,
    SpawnError, StaticRunner,
};

struct Detached(StaticRunner);

impl Runnable for Detached {
    fn name(&self) -> String {
        self.0.name()
    }

    fn exec(&self, _cwd: Option<String>) -> Result<RunnableHandle, SpawnError> {
        Ok(RunnableHandle::new(None).0)
    }
}

struct Fixed {
    labels: Vec<String>,
}

impl Source for Fixed {
    type Runner = Detached;

    fn runnables_for_path(
        &mut self,
        path: &str,
    ) -> Result<Vec<RunnableToken<Detached>>, SourceError> {
        if path.is_empty() {
            return Err(SourceError { message: "no path".to_string() });
        }
        let mut tokens = Vec::new();
        for (index, label) in self.labels.iter().enumerate() {
            let runner = Detached(StaticRunner::new(Definition {
                command: "true".to_string(),
                args: Vec::new(),
                label: label.clone(),
            }));
            let metadata = RunnableMetadata::new(1, runner.name());
            tokens.push(RunnableToken::new(index as u64, metadata, runner));
        }
        Ok(tokens)
    }
}

#[test]
fn source_lists_tokens_in_order() {
    let mut source = Fixed { labels: vec!["build".to_string(), "".to_string()] };
    let mut tokens = source.runnables_for_path("src/main.rs").unwrap();
    assert_eq!(tokens.len(), 2);
    assert_eq!(tokens[0].metadata().display_name(), "build");
    assert_eq!(tokens[1].metadata().display_name(), "");
    assert_eq!(tokens[1].id(), 1);
    assert!(!tokens[0].was_scheduled());
    let handle = tokens[0].schedule(None).unwrap();
    assert!(handle.output.is_none());
    assert!(tokens[0].was_scheduled());
    assert!(!tokens[1].was_scheduled());
    assert!(!tokens[0].record_read(OutputStream::Stdout, b"dropped\n"));
}

#[test]
fn source_reports_its_error() {
    let mut source = Fixed { labels: Vec::new() };
    let error = source.runnables_for_path("").err().unwrap();
    assert_eq!(error, SourceError { message: "no path".to_string() });
}
