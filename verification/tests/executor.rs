use discli::config::env::Config;
use discli::error::DiscliError;
use discli::hooks::config::{
    CompiledHookConfig, HookAction, HookConfig, ProcessingConfig, TriggerConfig,
};
use discli::hooks::executor::{
    plan_dispatch, plan_processor, Effect, Event, HookExecutor, HookResult, Stage, Step,
};
use discli::processing::command::{CommandOutcome, CommandProcessor};
use discli::processing::http::{HttpOutcome, HttpProcessor};
use discli::prompt::variables::MessageVariables;

const NANOS: u128 = 1_000_000_000;

fn inbound(content: &str, author_id: &str, channel_id: &str) -> MessageVariables {
    MessageVariables {
        content: content.to_string(),
        author_id: author_id.to_string(),
        author_name: "ann".to_string(),
        channel_id: channel_id.to_string(),
        message_id: "m1".to_string(),
        timestamp: "2024-01-01T00:00:00Z".to_string(),
        attachments: vec![],
        embed_count: 0,
    }
}

fn command(cmd: Vec<&str>) -> ProcessingConfig {
    ProcessingConfig {
        timeout_seconds: 30,
        processor_type: "command".to_string(),
        cmd: cmd.into_iter().map(|c| c.to_string()).collect(),
        url: String::new(),
    }
}

fn http(url: &str) -> ProcessingConfig {
    ProcessingConfig {
        timeout_seconds: 7,
        processor_type: "http".to_string(),
        cmd: vec![],
        url: url.to_string(),
    }
}

fn ready(action: HookAction, processing: ProcessingConfig) -> CompiledHookConfig {
    HookConfig {
        id: "h".to_string(),
        name: "h".to_string(),
        enabled: true,
        channels: vec!["42".to_string()],
        trigger: TriggerConfig::Any,
        prompt_file: "p.txt".to_string(),
        filter: None,
        action,
        processing,
    }
    .compile()
    .unwrap()
}

fn executor() -> HookExecutor {
    HookExecutor::new(Config {
        discord_token: "tok".to_string(),
        channel_id: "7".to_string(),
        hook_enabled: true,
        hooks_file: "./hooks.yaml".to_string(),
        prompts_dir: "prompts".to_string(),
        log_level: "info".to_string(),
    })
}

fn finished(step: Step) -> (Stage, HookResult) {
    match step {
        Step { stage, effect: Effect::Finish(result) } => (stage, result),
        other => panic!("expected the end of the execution, got {:?}", other),
    }
}

fn exited(success: bool, stdout: &str, stderr: &str) -> CommandOutcome {
    CommandOutcome::Exited {
        success,
        stdout: stdout.as_bytes().to_vec(),
        stderr: stderr.as_bytes().to_vec(),
    }
}

#[test]
fn test_hook_result_default() {
    let result = HookResult { executed: false, response: None, error: None };

    assert!(!result.executed);
    assert!(result.response.is_none());
    assert!(result.error.is_none());
}

#[test]
fn new_executor_limits_five_per_user() {
    let mut exec = executor();
    let hook = ready(HookAction::Reply, command(vec!["cat"]));
    for i in 0..5u128 {
        let step = exec.begin_at(&hook, &inbound("x", "u1", &format!("c{}", i)), i);
        assert!(matches!(step.stage, Stage::Admitted));
    }
    let (stage, result) = finished(exec.begin_at(&hook, &inbound("x", "u1", "c9"), 6));
    assert!(matches!(stage, Stage::RateLimited));
    assert!(!result.executed);
    assert_eq!(result.response, None);
    assert_eq!(result.error, Some("Rate limited (user)".to_string()));
}

#[test]
fn new_executor_limits_ten_per_channel() {
    let mut exec = executor();
    let hook = ready(HookAction::Reply, command(vec!["cat"]));
    for i in 0..10u128 {
        let step = exec.begin_at(&hook, &inbound("x", &format!("u{}", i), "42"), i);
        assert!(matches!(step.stage, Stage::Admitted));
    }
    let (stage, result) = finished(exec.begin_at(&hook, &inbound("x", "u99", "42"), 11));
    assert!(matches!(stage, Stage::RateLimited));
    assert_eq!(result.error, Some("Rate limited (channel)".to_string()));
    assert!(!result.executed);
    // After the window both are admitted again.
    let step = exec.begin_at(&hook, &inbound("x", "u99", "42"), 61 * NANOS);
    assert!(matches!(step.stage, Stage::Admitted));
}

#[test]
fn user_is_checked_before_the_channel() {
    let mut exec = executor();
    let hook = ready(HookAction::Reply, command(vec!["cat"]));
    for i in 0..5u128 {
        exec.begin_at(&hook, &inbound("x", "u1", "42"), i);
    }
    // The user is over the limit: the channel is not checked in.
    for i in 5..20u128 {
        let (_, result) = finished(exec.begin_at(&hook, &inbound("x", "u1", "42"), i));
        assert_eq!(result.error, Some("Rate limited (user)".to_string()));
    }
    // So the channel has five admissions, and room for five more.
    for i in 0..5u128 {
        let step = exec.begin_at(&hook, &inbound("x", &format!("v{}", i), "42"), 20 + i);
        assert!(matches!(step.stage, Stage::Admitted));
    }
    let (_, result) = finished(exec.begin_at(&hook, &inbound("x", "w", "42"), 30));
    assert_eq!(result.error, Some("Rate limited (channel)".to_string()));
}

#[test]
fn admitted_message_asks_for_its_template() {
    let mut exec = executor();
    let hook = ready(HookAction::Reply, command(vec!["cat"]));
    let step = exec.begin(&hook, &inbound("hello", "u1", "42"));
    assert!(matches!(step.stage, Stage::Admitted));
    let expected = std::path::Path::new("prompts").join("p.txt").to_string_lossy().into_owned();
    assert!(matches!(step.effect, Effect::ReadTemplate { file } if file == expected));
}

#[test]
fn unreadable_template_ends_in_render_failed() {
    let mut exec = executor();
    let hook = ready(HookAction::Reply, command(vec!["cat"]));
    let msg = inbound("hello", "u1", "42");
    exec.begin(&hook, &msg);
    let (stage, result) = finished(exec.template_read(&hook, &msg, Err("No such file".to_string())));
    assert!(matches!(stage, Stage::RenderFailed));
    assert!(!result.executed);
    assert_eq!(result.response, None);
    assert_eq!(result.error, Some("Failed to load prompt: IO error: No such file".to_string()));
}

#[test]
fn rendered_prompt_goes_to_the_command() {
    let mut exec = executor();
    let hook = ready(HookAction::Reply, command(vec!["python", "run.py", "--fast"]));
    let msg = inbound("hello", "u1", "42");
    exec.begin(&hook, &msg);
    let step = exec.template_read(&hook, &msg, Ok("Hi {{author_name}}: {{content}}".to_string()));
    assert!(matches!(step.stage, Stage::Rendered));
    match step.effect {
        Effect::RunCommand(request) => {
            assert_eq!(request.program, "python");
            assert_eq!(request.args, vec!["run.py".to_string(), "--fast".to_string()]);
            assert_eq!(request.stdin, "Hi ann: hello");
            assert_eq!(request.timeout_secs, 30);
        }
        other => panic!("expected a command, got {:?}", other),
    }
}

#[test]
fn cached_template_is_rendered_at_once() {
    let mut exec = executor();
    let hook = ready(HookAction::Reply, command(vec!["cat"]));
    let first = inbound("one", "u1", "42");
    exec.begin(&hook, &first);
    exec.template_read(&hook, &first, Ok("> {{content}}".to_string()));
    let step = exec.begin(&hook, &inbound("two", "u2", "42"));
    assert!(matches!(step.stage, Stage::Rendered));
    assert!(matches!(step.effect, Effect::RunCommand(request) if request.stdin == "> two"));
}

#[test]
fn rendered_prompt_goes_to_the_http_backend() {
    let mut exec = executor();
    let hook = ready(HookAction::Reply, http("http://localhost:1/run"));
    let msg = inbound("say \"hi\"", "u1", "42");
    exec.begin(&hook, &msg);
    let step = exec.template_read(&hook, &msg, Ok("{{content}}".to_string()));
    assert!(matches!(step.stage, Stage::Rendered));
    match step.effect {
        Effect::Post(request) => {
            assert_eq!(request.url, "http://localhost:1/run");
            assert_eq!(request.timeout_secs, 7);
            assert_eq!(request.body, "{\"metadata\":{},\"prompt\":\"say \\\"hi\\\"\"}");
        }
        other => panic!("expected a POST, got {:?}", other),
    }
}

#[test]
fn processor_configuration_errors() {
    match plan_processor(&command(vec![]), "p") {
        Err(DiscliError::Config(text)) => assert_eq!(text, "No command configured"),
        other => panic!("expected a configuration error, got {:?}", other),
    }
    match plan_processor(&http(""), "p") {
        Err(DiscliError::Config(text)) => assert_eq!(text, "No URL configured"),
        other => panic!("expected a configuration error, got {:?}", other),
    }
    let odd = ProcessingConfig { processor_type: "grpc".to_string(), ..command(vec!["x"]) };
    match plan_processor(&odd, "p") {
        Err(DiscliError::Config(text)) => assert_eq!(text, "Unknown processor type: grpc"),
        other => panic!("expected a configuration error, got {:?}", other),
    }
    let empty = ProcessingConfig { processor_type: String::new(), ..command(vec!["x"]) };
    match plan_processor(&empty, "p") {
        Err(DiscliError::Config(text)) => assert_eq!(text, "Unknown processor type: "),
        other => panic!("expected a configuration error, got {:?}", other),
    }
}

#[test]
fn unconfigured_processor_ends_in_process_failed() {
    let mut exec = executor();
    let hook = ready(HookAction::Reply, command(vec![]));
    let msg = inbound("hello", "u1", "42");
    exec.begin(&hook, &msg);
    let (stage, result) = finished(exec.template_read(&hook, &msg, Ok("x".to_string())));
    assert!(matches!(stage, Stage::ProcessFailed));
    assert!(!result.executed);
    assert_eq!(result.error, Some("Configuration error: No command configured".to_string()));
}

#[test]
fn failing_command_yields_a_process_error() {
    let exec = executor();
    let hook = ready(HookAction::Reply, command(vec!["false"]));
    let msg = inbound("hello", "u1", "42");
    let (stage, result) = finished(exec.command_finished(&hook, &msg, exited(false, "", "boom\n")));
    assert!(matches!(stage, Stage::ProcessFailed));
    assert!(!result.executed);
    assert_eq!(result.response, None);
    assert_eq!(result.error, Some("Process error: Command failed: boom\n".to_string()));
    assert!(matches!(
        CommandProcessor::new(1).conclude(exited(false, "out", "")),
        Err(DiscliError::Process(text)) if text == "Command failed: "
    ));
}

#[test]
fn slow_command_yields_a_timeout_error() {
    let exec = executor();
    let hook = ready(HookAction::Reply, command(vec!["sleep", "10"]));
    let msg = inbound("hello", "u1", "42");
    let (stage, result) = finished(exec.command_finished(&hook, &msg, CommandOutcome::TimedOut));
    assert!(matches!(stage, Stage::ProcessFailed));
    assert!(!result.executed);
    assert_eq!(result.error, Some("Timeout error: Command timed out".to_string()));
    assert!(matches!(
        CommandProcessor::new(1).conclude(CommandOutcome::TimedOut),
        Err(DiscliError::Timeout(text)) if text == "Command timed out"
    ));
}

#[test]
fn command_that_could_not_run_yields_an_io_error() {
    let out = CommandProcessor::new(1).conclude(CommandOutcome::IoFailed("not found".to_string()));
    assert!(matches!(out, Err(DiscliError::Io(text)) if text == "not found"));
}

#[test]
fn command_output_is_decoded_lossily() {
    let processor = CommandProcessor::new(5);
    assert_eq!(processor.conclude(exited(true, "hello\n", "warn")).unwrap(), "hello\n");
    assert_eq!(processor.conclude(exited(true, "", "")).unwrap(), "");
    let bytes = CommandOutcome::Exited {
        success: true,
        stdout: vec![b'a', 0xff, b'b', 0xc3, 0xa9],
        stderr: vec![],
    };
    assert_eq!(processor.conclude(bytes).unwrap(), "a\u{fffd}bé");
    let failed = CommandOutcome::Exited { success: false, stdout: vec![], stderr: vec![0xfe, b'!'] };
    assert!(matches!(
        processor.conclude(failed),
        Err(DiscliError::Process(text)) if text == "Command failed: \u{fffd}!"
    ));
}

#[test]
fn command_line_is_split_into_program_and_arguments() {
    let processor = CommandProcessor::new(9);
    let request = processor.prepare(&vec!["echo".to_string(), "hello".to_string()], "test input").unwrap();
    assert_eq!(request.program, "echo");
    assert_eq!(request.args, vec!["hello".to_string()]);
    assert_eq!(request.stdin, "test input");
    assert_eq!(request.timeout_secs, 9);
    let alone = processor.prepare(&vec!["cat".to_string()], "").unwrap();
    assert_eq!(alone.program, "cat");
    assert!(alone.args.is_empty());
    match processor.prepare(&vec![], "x") {
        Err(DiscliError::Config(text)) => assert_eq!(text, "Empty command"),
        other => panic!("expected a configuration error, got {:?}", other),
    }
}

#[test]
fn http_body_holds_prompt_and_metadata() {
    let processor = HttpProcessor::new(3);
    let plain = processor.prepare("http://h/x", "line1\nline2", None);
    assert_eq!(plain.url, "http://h/x");
    assert_eq!(plain.timeout_secs, 3);
    assert_eq!(plain.body, "{\"metadata\":{},\"prompt\":\"line1\\nline2\"}");
    let meta: serde_json::Value = serde_json::from_str("{\"k\":[1,true]}").unwrap();
    let with = processor.prepare("http://h/x", "p", Some(meta));
    assert_eq!(with.body, "{\"metadata\":{\"k\":[1,true]},\"prompt\":\"p\"}");
}

#[test]
fn http_outcomes() {
    let processor = HttpProcessor::new(3);
    let ok = HttpOutcome::Responded {
        status: 200,
        status_text: "200 OK".to_string(),
        body: Ok("{\"a\":1}".to_string()),
    };
    assert_eq!(processor.conclude(ok).unwrap(), "{\"a\":1}");
    let edge = HttpOutcome::Responded {
        status: 299,
        status_text: "299".to_string(),
        body: Ok(String::new()),
    };
    assert_eq!(processor.conclude(edge).unwrap(), "");
    for status in [199u16, 300, 404, 500] {
        let bad = HttpOutcome::Responded {
            status,
            status_text: format!("{} Nope", status),
            body: Ok("why".to_string()),
        };
        assert!(matches!(
            processor.conclude(bad),
            Err(DiscliError::Remote(text)) if text == format!("HTTP webhook failed: {} Nope - why", status)
        ));
    }
    let unread = HttpOutcome::Responded {
        status: 502,
        status_text: "502 Bad Gateway".to_string(),
        body: Err("reset".to_string()),
    };
    assert!(matches!(
        processor.conclude(unread),
        Err(DiscliError::Remote(text)) if text == "HTTP webhook failed: 502 Bad Gateway - "
    ));
    let cut = HttpOutcome::Responded {
        status: 200,
        status_text: "200 OK".to_string(),
        body: Err("reset".to_string()),
    };
    assert!(matches!(processor.conclude(cut), Err(DiscliError::Network(text)) if text == "reset"));
    assert!(matches!(
        processor.conclude(HttpOutcome::TimedOut("operation timed out".to_string())),
        Err(DiscliError::Timeout(text)) if text == "operation timed out"
    ));
    assert!(matches!(
        processor.conclude(HttpOutcome::TransportFailed("refused".to_string())),
        Err(DiscliError::Network(text)) if text == "refused"
    ));
}

#[test]
fn remote_failure_ends_in_process_failed() {
    let exec = executor();
    let hook = ready(HookAction::Reply, http("http://h"));
    let msg = inbound("hello", "u1", "42");
    let outcome = HttpOutcome::Responded {
        status: 500,
        status_text: "500 Internal Server Error".to_string(),
        body: Ok("oops".to_string()),
    };
    let (stage, result) = finished(exec.post_finished(&hook, &msg, outcome));
    assert!(matches!(stage, Stage::ProcessFailed));
    assert!(!result.executed);
    assert_eq!(
        result.error,
        Some("Remote error: HTTP webhook failed: 500 Internal Server Error - oops".to_string())
    );
}

#[test]
fn dispatch_by_action() {
    let msg = inbound("hello", "u1", "42");
    assert!(matches!(
        plan_dispatch(&HookAction::Reply, "r", &msg),
        Effect::Send { channel_id, content } if channel_id == "42" && content == "r"
    ));
    assert!(matches!(
        plan_dispatch(&HookAction::Forward { channel_id: "77".to_string() }, "r", &msg),
        Effect::Send { channel_id, content } if channel_id == "77" && content == "r"
    ));
    assert!(matches!(
        plan_dispatch(&HookAction::SendDm, "r", &msg),
        Effect::LogDm { content } if content == "r"
    ));
    assert!(matches!(
        plan_dispatch(&HookAction::Webhook { url: "http://w".to_string() }, "a \"b\"", &msg),
        Effect::PostWebhook { url, body } if url == "http://w" && body == "{\"content\":\"a \\\"b\\\"\"}"
    ));
}

#[test]
fn response_is_dispatched_and_reported() {
    let exec = executor();
    let hook = ready(HookAction::Reply, command(vec!["cat"]));
    let msg = inbound("hello", "u1", "42");
    let step = exec.command_finished(&hook, &msg, exited(true, "answer", ""));
    assert!(matches!(&step.stage, Stage::Processed { response } if response == "answer"));
    assert!(matches!(
        &step.effect,
        Effect::Send { channel_id, content } if channel_id == "42" && content == "answer"
    ));
    let (stage, result) = finished(exec.delivered(&hook, "answer".to_string(), Ok(())));
    assert!(matches!(stage, Stage::Dispatched));
    assert!(result.executed);
    assert_eq!(result.response, Some("answer".to_string()));
    assert_eq!(result.error, None);
}

#[test]
fn failed_reply_ends_in_dispatch_failed() {
    let exec = executor();
    for action in [HookAction::Reply, HookAction::Forward { channel_id: "77".to_string() }] {
        let hook = ready(action, command(vec!["cat"]));
        let report = Err(DiscliError::DiscordApi("Discord API returned error status 403: no".to_string()));
        let (stage, result) = finished(exec.delivered(&hook, "answer".to_string(), report));
        assert!(matches!(stage, Stage::DispatchFailed));
        assert!(!result.executed);
        assert_eq!(result.response, None);
        assert_eq!(
            result.error,
            Some("Discord API error: Discord API returned error status 403: no".to_string())
        );
    }
}

#[test]
fn failed_webhook_is_swallowed() {
    let exec = executor();
    for action in [HookAction::Webhook { url: "http://w".to_string() }, HookAction::SendDm] {
        let hook = ready(action, command(vec!["cat"]));
        let report = Err(DiscliError::Network("refused".to_string()));
        let (stage, result) = finished(exec.delivered(&hook, "answer".to_string(), report));
        assert!(matches!(stage, Stage::Dispatched));
        assert!(result.executed);
        assert_eq!(result.response, Some("answer".to_string()));
        assert_eq!(result.error, None);
    }
}

#[test]
fn whole_execution_step_by_step() {
    let mut exec = executor();
    let hook = ready(HookAction::Forward { channel_id: "77".to_string() }, command(vec!["tr", "a-z", "A-Z"]));
    let msg = inbound("hello", "u1", "42");
    let step = exec.step(&hook, &msg, Stage::Received, Event::Start);
    assert!(matches!(step.effect, Effect::ReadTemplate { .. }));
    let step = exec.step(&hook, &msg, step.stage, Event::TemplateRead(Ok("{{content}}!".to_string())));
    assert!(matches!(&step.effect, Effect::RunCommand(request) if request.stdin == "hello!"));
    let step = exec.step(&hook, &msg, step.stage, Event::CommandFinished(exited(true, "HELLO!", "")));
    assert!(matches!(
        &step.effect,
        Effect::Send { channel_id, content } if channel_id == "77" && content == "HELLO!"
    ));
    let step = exec.step(&hook, &msg, step.stage, Event::Delivered(Ok(())));
    let (stage, result) = finished(step);
    assert!(matches!(stage, Stage::Dispatched));
    assert!(result.executed);
    assert_eq!(result.response, Some("HELLO!".to_string()));
}

#[test]
fn http_execution_step_by_step() {
    let mut exec = executor();
    let hook = ready(HookAction::SendDm, http("http://h"));
    let msg = inbound("hello", "u1", "42");
    let step = exec.step(&hook, &msg, Stage::Received, Event::Start);
    let step = exec.step(&hook, &msg, step.stage, Event::TemplateRead(Ok("{{content}}".to_string())));
    assert!(matches!(&step.effect, Effect::Post(_)));
    let answer = HttpOutcome::Responded {
        status: 201,
        status_text: "201 Created".to_string(),
        body: Ok("done".to_string()),
    };
    let step = exec.step(&hook, &msg, step.stage, Event::PostFinished(answer));
    assert!(matches!(&step.effect, Effect::LogDm { content } if content == "done"));
    let (stage, result) = finished(exec.step(&hook, &msg, step.stage, Event::Delivered(Ok(()))));
    assert!(matches!(stage, Stage::Dispatched));
    assert_eq!(result.response, Some("done".to_string()));
}

#[test]
fn event_that_does_not_fit_ends_the_execution() {
    let mut exec = executor();
    let hook = ready(HookAction::Reply, command(vec!["cat"]));
    let msg = inbound("hello", "u1", "42");
    let (stage, result) = finished(exec.step(&hook, &msg, Stage::Received, Event::Delivered(Ok(()))));
    assert!(matches!(stage, Stage::Received));
    assert!(!result.executed);
    assert_eq!(result.error, Some("Unexpected event".to_string()));
    let (stage, _) = finished(exec.step(&hook, &msg, Stage::Admitted, Event::Start));
    assert!(matches!(stage, Stage::Admitted));
    let (stage, _) = finished(exec.step(&hook, &msg, Stage::Rendered, Event::TemplateRead(Ok(String::new()))));
    assert!(matches!(stage, Stage::Rendered));
    let held = Stage::Processed { response: "r".to_string() };
    let (stage, _) = finished(exec.step(&hook, &msg, held, Event::Start));
    assert!(matches!(stage, Stage::Processed { response } if response == "r"));
    for done in [Stage::RateLimited, Stage::RenderFailed, Stage::ProcessFailed, Stage::Dispatched, Stage::DispatchFailed] {
        let (_, result) = finished(exec.step(&hook, &msg, done, Event::Start));
        assert_eq!(result.error, Some("Unexpected event".to_string()));
    }
    // None of this was checked in with the limiter.
    let now = exec.now();
    for i in 0..5u128 {
        let step = exec.begin_at(&hook, &msg, now + i);
        assert!(matches!(step.stage, Stage::Admitted));
    }
}
