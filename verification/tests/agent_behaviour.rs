use std::collections::VecDeque;

use sys_tui::agent::api::{
    authorize, chat_response_from_outcome, models_response, plan_chat, AuthError, ChatPlan,
};
use sys_tui::agent::clock::now_ms;
use sys_tui::agent::config::{configured_watch_dirs, split_watch_dirs, AgentConfig, AgentEnv};
use sys_tui::agent::disks::{root_disk_usage, DiskInfo};
use sys_tui::agent::events::{file_event_line, push_event, read_recent_events, EVENT_QUEUE_CAP};
use sys_tui::agent::history::{
    process_key, prune_old_samples, ProcessHistory, ProcessObservation, ProcessSample,
    PROCESS_WINDOW_MS,
};
use sys_tui::agent::ollama::{
    collect_llm_metrics, contains_string, dedupe_keep_order, fetch_installed_models,
    fetch_running_models, FetchOutcome,
};
use sys_tui::wire::ChatRequest;

fn s(v: &str) -> String {
    v.to_string()
}

fn body(json: &str) -> FetchOutcome {
    FetchOutcome::Body(json.as_bytes().to_vec())
}

#[test]
fn authorize_without_token_accepts_everything() {
    assert!(authorize(&None, &None).is_ok());
    assert!(authorize(&None, &Some(s("anything"))).is_ok());
}

#[test]
fn authorize_with_token_needs_the_same_header() {
    let token = Some(s("secret"));
    assert!(authorize(&token, &Some(s("secret"))).is_ok());
    assert!(matches!(authorize(&token, &Some(s("Secret"))), Err(AuthError::Unauthorized)));
    assert!(matches!(authorize(&token, &None), Err(AuthError::Unauthorized)));
    assert!(authorize(&Some(s("")), &None).is_ok());
}

#[test]
fn empty_prompt_is_answered_directly() {
    let req = ChatRequest { prompt: s("   "), model: Some(s("x")) };
    match plan_chat(&req, "llama3.2") {
        ChatPlan::Reply(r) => {
            assert_eq!(r.response, "");
            assert_eq!(r.model, "llama3.2");
            assert_eq!(r.error, Some(s("prompt is empty")));
        }
        ChatPlan::Forward(_) => panic!("an empty prompt is not forwarded"),
    }
}

#[test]
fn prompt_goes_to_the_trimmed_requested_model_or_the_default() {
    let with_model = ChatRequest { prompt: s("hi"), model: Some(s("  qwen  ")) };
    assert!(matches!(plan_chat(&with_model, "llama3.2"), ChatPlan::Forward(m) if m == "qwen"));
    let blank_model = ChatRequest { prompt: s("hi"), model: Some(s("  ")) };
    assert!(matches!(plan_chat(&blank_model, "llama3.2"), ChatPlan::Forward(m) if m == "llama3.2"));
    let no_model = ChatRequest { prompt: s("hi"), model: None };
    assert!(matches!(plan_chat(&no_model, "llama3.2"), ChatPlan::Forward(m) if m == "llama3.2"));
}

#[test]
fn ollama_reply_is_read_from_response_or_message() {
    let r = chat_response_from_outcome(s("m1"), "def", body(r#"{"model":"m2","response":"hello"}"#));
    assert_eq!((r.response.as_str(), r.model.as_str(), r.error), ("hello", "m2", None));
    let r = chat_response_from_outcome(s("m1"), "def", body(r#"{"message":{"content":"hey"}}"#));
    assert_eq!((r.response.as_str(), r.model.as_str(), r.error), ("hey", "def", None));
    let r = chat_response_from_outcome(s("m1"), "def", body(r#"{}"#));
    assert_eq!((r.response.as_str(), r.model.as_str()), ("", "def"));
}

#[test]
fn ollama_failures_are_reported() {
    let r = chat_response_from_outcome(s("m1"), "def", FetchOutcome::RequestFailed);
    assert_eq!(r.error, Some(s("failed to reach ollama")));
    assert_eq!(r.model, "m1");
    let r = chat_response_from_outcome(s("m1"), "def", body("not json"));
    assert_eq!(r.error, Some(s("invalid response from ollama")));
    let r = chat_response_from_outcome(s("m1"), "def", FetchOutcome::BodyUnreadable);
    assert_eq!(r.error, Some(s("invalid response from ollama")));
}

#[test]
fn models_response_warns_without_installed_models() {
    let r = models_response("llama3.2", vec![s("a")], vec![]);
    assert_eq!(r.error, Some(s("no installed models found or ollama unavailable")));
    let r = models_response("llama3.2", vec![], vec![s("a")]);
    assert_eq!(r.error, None);
    assert_eq!(r.selected_model, "llama3.2");
}

#[test]
fn llm_metrics_from_ps_reply() {
    let m = collect_llm_metrics(
        "http://x/api/ps",
        body(r#"{"models":[{"name":"a"},{"size":1},{"name":"b"}]}"#),
    );
    assert!(m.ollama_online);
    assert_eq!(m.running_models, vec![s("a"), s("b")]);
    assert_eq!(m.model_count, 2);
    assert_eq!(m.error, None);
    assert_eq!(m.ollama_ps_url, "http://x/api/ps");

    let m = collect_llm_metrics("u", body(r#"{"other":1}"#));
    assert!(m.ollama_online);
    assert!(m.running_models.is_empty());

    let m = collect_llm_metrics("u", body("{"));
    assert!(!m.ollama_online);
    assert_eq!(m.error, Some(s("invalid JSON from ollama")));

    let m = collect_llm_metrics("u", FetchOutcome::RequestFailed);
    assert_eq!(m.error, Some(s("request failed")));
    assert_eq!(m.model_count, 0);
}

#[test]
fn installed_models_are_deduplicated() {
    let running = fetch_running_models(body(r#"{"models":[{"name":"a"},{"name":"a"}]}"#));
    assert_eq!(running, vec![s("a"), s("a")]);
    let installed = fetch_installed_models(body(r#"{"models":[{"name":"b"},{"name":"a"},{"name":"b"}]}"#));
    assert_eq!(installed, vec![s("b"), s("a")]);
    assert!(fetch_installed_models(FetchOutcome::RequestFailed).is_empty());
}

#[test]
fn dedupe_keeps_first_occurrences_in_order() {
    let out = dedupe_keep_order(vec![s("x"), s("y"), s("x"), s("z"), s("y")]);
    assert_eq!(out, vec![s("x"), s("y"), s("z")]);
    assert!(contains_string(&out, "z"));
    assert!(!contains_string(&out, "w"));
}

#[test]
fn agent_config_defaults() {
    let env = AgentEnv {
        agent_bind: None,
        agent_token: Some(s("")),
        watch_dirs: None,
        home: Some(s("/home/u")),
        ollama_ps_url: None,
        ollama_tags_url: None,
        ollama_chat_url: None,
        ollama_model: None,
    };
    let c = AgentConfig::from_env(&env);
    assert_eq!(c.bind_addr, "127.0.0.1:8787");
    assert_eq!(c.token, None);
    assert_eq!(c.watch_dirs, vec![s("/home/u/Downloads"), s("/home/u/.ollama")]);
    assert_eq!(c.ollama_ps_url, "http://127.0.0.1:11434/api/ps");
    assert_eq!(c.ollama_tags_url, "http://127.0.0.1:11434/api/tags");
    assert_eq!(c.ollama_chat_url, "http://127.0.0.1:11434/api/generate");
    assert_eq!(c.ollama_model, "llama3.2");
}

#[test]
fn agent_config_from_set_variables() {
    let env = AgentEnv {
        agent_bind: Some(s("0.0.0.0:9000")),
        agent_token: Some(s("tok")),
        watch_dirs: Some(s(" /a , ,/b,")),
        home: None,
        ollama_ps_url: Some(s("p")),
        ollama_tags_url: Some(s("t")),
        ollama_chat_url: Some(s("c")),
        ollama_model: Some(s("m")),
    };
    let c = AgentConfig::from_env(&env);
    assert_eq!(c.bind_addr, "0.0.0.0:9000");
    assert_eq!(c.token, Some(s("tok")));
    assert_eq!(c.watch_dirs, vec![s("/a"), s("/b")]);
    assert_eq!((c.ollama_ps_url.as_str(), c.ollama_tags_url.as_str()), ("p", "t"));
    assert_eq!((c.ollama_chat_url.as_str(), c.ollama_model.as_str()), ("c", "m"));
}

#[test]
fn watch_dirs_without_home_or_list() {
    assert!(configured_watch_dirs(&None, &None).is_empty());
    assert_eq!(split_watch_dirs("x,y"), vec![s("x"), s("y")]);
    assert!(split_watch_dirs(" , ").is_empty());
}

#[test]
fn root_disk_is_the_one_mounted_at_root() {
    let disks = vec![
        DiskInfo { is_root: false, total_space: 10, available_space: 5 },
        DiskInfo { is_root: true, total_space: 100, available_space: 30 },
    ];
    assert_eq!(root_disk_usage(&disks), (100, 70));
    let no_root = vec![DiskInfo { is_root: false, total_space: 10, available_space: 50 }];
    assert_eq!(root_disk_usage(&no_root), (10, 0));
    assert_eq!(root_disk_usage(&vec![]), (0, 0));
}

#[test]
fn file_events_render_and_stay_bounded() {
    let line = file_event_line(1700, "Create(File)", &vec![s("/a"), s("/b")]);
    assert_eq!(line, "1700 [Create(File)] /a, /b");
    let mut q = VecDeque::new();
    for i in 0..(EVENT_QUEUE_CAP + 5) {
        push_event(&mut q, format!("e{i}"));
    }
    assert_eq!(q.len(), EVENT_QUEUE_CAP);
    assert_eq!(q.back().unwrap(), &format!("e{}", EVENT_QUEUE_CAP + 4));
    assert_eq!(q.front().unwrap(), "e5");
    let recent = read_recent_events(&q, 3);
    assert_eq!(recent, vec![format!("e{}", EVENT_QUEUE_CAP + 4), format!("e{}", EVENT_QUEUE_CAP + 3), format!("e{}", EVENT_QUEUE_CAP + 2)]);
    assert_eq!(read_recent_events(&VecDeque::new(), 20), Vec::<String>::new());
}

fn obs(pid: u32, start: u64, name: &str, cpu: f32, mem: u64) -> ProcessObservation {
    ProcessObservation { pid, start_time: start, name: s(name), cpu_bits: cpu.to_bits(), memory_bytes: mem }
}

#[test]
fn process_history_keeps_five_minutes() {
    let mut h = ProcessHistory::new();
    h.update(&vec![obs(1, 10, "a", 1.0, 100), obs(2, 20, "b", 2.0, 200)], 1_000);
    h.update(&vec![obs(1, 10, "a2", 3.0, 150)], 2_000);
    assert_eq!(h.len(), 2);
    let w = h.windows(2_000);
    assert_eq!(w.len(), 2);
    assert_eq!(w[0].pid, 1);
    assert_eq!(w[0].name, "a2");
    assert_eq!(w[0].samples_5m, 2);
    assert_eq!(w[0].cpu_bits, vec![1.0f32.to_bits(), 3.0f32.to_bits()]);
    assert_eq!(w[0].current.memory_bytes, 150);
    // Far in the future, every sample is too old and the processes go.
    h.update(&vec![], 2_000 + PROCESS_WINDOW_MS + 1_001);
    assert_eq!(h.len(), 0);
    assert_eq!(process_key(3, 4).pid, 3);
}

#[test]
fn pruning_drops_only_old_samples() {
    let sample = |ts: u128| ProcessSample { ts_ms: ts, cpu_bits: 0, memory_bytes: 0 };
    let mut q: VecDeque<ProcessSample> = vec![sample(0), sample(100_100), sample(400_000)].into();
    prune_old_samples(&mut q, 400_050);
    let left: Vec<u128> = q.iter().map(|x| x.ts_ms).collect();
    assert_eq!(left, vec![100_100, 400_000]);
    prune_old_samples(&mut q, 400_050);
    assert_eq!(q.len(), 2);
}

#[test]
fn clock_reads_after_2020() {
    assert!(now_ms() > 1_577_836_800_000);
}
