use autotokenizer::AutoTokenizer;

use llmserver_rs::chat::{FinishReason, StreamEncoder};
use llmserver_rs::executor::{
    prompt_or_empty, prompt_turns, render_prompt, rendered_prompt, run_failure_tokens, CallState, ExecLifecycle,
    ExecState, ForwardAction, TokenForwarder,
};
use llmserver_rs::ollama::default_true;
use llmserver_rs::utils::{load_plan, ModelCatalog, ModelConfig, ModelType, ProgressTracker};
use llmserver_rs::{Content, Message, Role};

fn config(repo: &str, name: &str) -> ModelConfig {
    ModelConfig {
        model_repo: repo.to_string(),
        model_name: name.to_string(),
        model_type: ModelType::LLM,
        model_path: None,
        tokenizer_repo: None,
        _asserts_path: String::new(),
        cache_path: None,
        think: None,
    }
}

fn user(text: &str) -> Message {
    Message { role: Some(Role::User), content: Some(Content::String(text.to_string())) }
}

#[test]
fn shutdown_destroys_the_handle_once() {
    let mut l = ExecLifecycle::new();
    assert_eq!(l.state_now(), ExecState::Ready);
    assert!(l.shutdown());
    assert_eq!(l.state_now(), ExecState::Destroyed);
    assert!(!l.shutdown());
    assert_eq!(l.state_now(), ExecState::Destroyed);
}

#[test]
fn runs_alternate_with_ready() {
    let mut l = ExecLifecycle::new();
    assert!(l.begin_run().is_ok());
    assert_eq!(l.state_now(), ExecState::Running);
    assert!(l.begin_run().is_err());
    l.end_run();
    assert_eq!(l.state_now(), ExecState::Ready);
    assert!(l.shutdown());
    assert!(l.begin_run().is_err());
    l.end_run();
    assert_eq!(l.state_now(), ExecState::Destroyed);
}

#[test]
fn forwarder_pushes_until_finish() {
    let mut f = TokenForwarder::new();
    match f.on_callback(CallState::Normal, Some("tok".to_string())) {
        ForwardAction::Push(t) => assert_eq!(t, "tok"),
        other => panic!("push expected, got {:?}", other),
    }
    assert!(matches!(f.on_callback(CallState::Normal, None), ForwardAction::Ignore));
    assert!(matches!(f.on_callback(CallState::Waiting, Some("w".to_string())), ForwardAction::Ignore));
    assert!(matches!(f.on_callback(CallState::Finish, None), ForwardAction::Close));
    assert!(matches!(f.on_callback(CallState::Normal, Some("late".to_string())), ForwardAction::Ignore));
    assert!(matches!(f.on_callback(CallState::Finish, None), ForwardAction::Ignore));
    assert!(!f.on_push_failed());
}

#[test]
fn dropped_consumer_aborts_once() {
    let mut f = TokenForwarder::new();
    assert!(matches!(f.on_callback(CallState::Normal, Some("a".to_string())), ForwardAction::Push(_)));
    assert!(f.on_push_failed());
    assert!(matches!(f.on_callback(CallState::Normal, Some("b".to_string())), ForwardAction::Ignore));
    assert!(!f.on_push_failed());
    assert!(matches!(f.on_callback(CallState::Finish, None), ForwardAction::Ignore));
    assert!(!f.on_push_failed());
}

#[test]
fn failed_run_sends_diagnostic_then_end_marker() {
    let t = run_failure_tokens("ctx too long");
    assert_eq!(
        t,
        vec![
            "Model error: execution failed. Check logs for context-length warnings. Details: ctx too long"
                .to_string(),
            String::new(),
        ]
    );
}

#[test]
fn turns_follow_messages() {
    let msgs = vec![
        Message { role: Some(Role::Developer), content: Some(Content::String("be brief".to_string())) },
        user("5+3?"),
        Message { role: None, content: Some(Content::Array(vec!["a".to_string(), "b".to_string()])) },
    ];
    let turns = prompt_turns(&msgs);
    assert_eq!(
        turns,
        vec![
            ("developer".to_string(), "be brief".to_string()),
            ("user".to_string(), "5+3?".to_string()),
            ("user".to_string(), "ab".to_string()),
        ]
    );
    assert!(prompt_turns(&vec![]).is_empty());
}

#[test]
fn prompt_falls_back_to_empty() {
    assert_eq!(prompt_or_empty(Some("p".to_string())), "p");
    assert_eq!(prompt_or_empty(None), "");
}

#[test]
fn prompt_renders_through_the_template() {
    let tok: AutoTokenizer = serde_json::from_str(
        r#"{"chat_template": "{% for m in messages %}<{{ m.role }}>{{ m.content }}{% endfor %}{% if add_generation_prompt %}<assistant>{% endif %}"}"#,
    )
    .unwrap();
    let msgs = vec![
        Message { role: Some(Role::System), content: Some(Content::String("s".to_string())) },
        user("hi"),
    ];
    assert_eq!(render_prompt(&tok, &msgs), "<system>s<user>hi<assistant>");
    assert_eq!(render_prompt(&tok, &vec![]), "<assistant>");
}

#[test]
fn prompt_without_template_is_empty() {
    let tok: AutoTokenizer = serde_json::from_str("{}").unwrap();
    assert_eq!(render_prompt(&tok, &vec![user("hi")]), "");
}

#[test]
fn progress_messages_of_a_download() {
    let mut p = ProgressTracker::new();
    let a = p.init(100, "model.rkllm");
    assert_eq!((a.current, a.total, a.download_done, a.finished), (0, 100, false, false));
    assert_eq!(a.message, "開始下載模型：model.rkllm");
    let b = p.update(10);
    assert_eq!((b.current, b.total, b.download_done, b.finished), (10, 100, false, false));
    assert_eq!(b.message, "下載中... 10/100\n");
    let c = p.update(90);
    assert_eq!(c.message, "下載中... 100/100\n");
    let d = p.finish();
    assert_eq!((d.current, d.total, d.download_done, d.finished), (100, 100, true, false));
    assert_eq!(d.message, "下載完成，正在初始化模型...");
}

#[test]
fn progress_messages_of_a_load() {
    let mut p = ProgressTracker::new();
    let _ = p.init(3000, "m.rkllm");
    let _ = p.update(1500);
    let a = p.model_load(1500, "m.rkllm");
    assert_eq!((a.current, a.total, a.download_done, a.finished), (1500, 3000, true, false));
    assert_eq!(a.message, "下載完成，開始載入 RKLLM 核心 m.rkllm (1.46 KiB)...");
    let small = p.model_load(15, "m.rkllm");
    assert_eq!(small.message, "下載完成，開始載入 RKLLM 核心 m.rkllm (15 B)...");
    let t = p.loading_tick(42);
    assert_eq!((t.current, t.total, t.download_done, t.finished), (1500, 1500, true, false));
    assert_eq!(t.message, "讀取模型中，已過去42秒");
    let f = p.model_finished();
    assert_eq!((f.current, f.total, f.download_done, f.finished), (1500, 3000, true, true));
    assert_eq!(f.message, "模型完全初始化完成，正在啟動 Actor。");
}

#[test]
fn load_stream_has_progress_then_tokens_then_stop() {
    let mut tracker = ProgressTracker::new();
    let progress = vec![tracker.init(10, "model.rkllm"), tracker.update(10), tracker.finish(), tracker.model_finished()];
    let mut chunks = Vec::new();
    let mut enc = StreamEncoder::new("id".to_string(), 1, "m1".to_string());
    for p in progress {
        chunks.push(enc.progress(p).expect("updates come before any text"));
    }
    for t in ["Hi", " there"] {
        chunks.push(enc.next(t.to_string()));
    }
    if let Some(last) = enc.finish() {
        chunks.push(last);
    }
    let roles: Vec<Option<Role>> = chunks.iter().map(|c| c.choices[0].delta.as_ref().unwrap().role).collect();
    assert_eq!(
        roles,
        vec![Some(Role::System), Some(Role::System), Some(Role::System), Some(Role::System), Some(Role::Assistant), None, None]
    );
    let finishes: Vec<Option<FinishReason>> = chunks.iter().map(|c| c.choices[0].finish_reason).collect();
    assert_eq!(finishes[..6], [None, None, None, None, None, None]);
    assert_eq!(finishes[6], Some(FinishReason::Stop));
}

#[test]
fn load_plan_defaults() {
    let p = load_plan(&config("org/model", "Model"));
    assert_eq!(p.model_repo, "org/model");
    assert_eq!(p.tokenizer_repo, "org/model");
    assert_eq!(p.filename, "model.rkllm");
    assert_eq!(p.prompt_cache_path, None);
    assert!(!p.think);
}

#[test]
fn load_plan_overrides() {
    let mut c = config("org/model", "Model");
    c.model_path = Some("q4.rkllm".to_string());
    c.tokenizer_repo = Some("org/tok".to_string());
    c.cache_path = Some("/tmp/cache".to_string());
    c.think = Some(true);
    let p = load_plan(&c);
    assert_eq!(p.tokenizer_repo, "org/tok");
    assert_eq!(p.filename, "q4.rkllm");
    assert_eq!(p.prompt_cache_path, Some("/tmp/cache".to_string()));
    assert!(p.think);
}

#[test]
fn catalog_replaces_by_repository() {
    let mut cat = ModelCatalog::new();
    assert!(cat.get("a").is_none());
    cat.insert(config("a", "first"));
    cat.insert(config("b", "other"));
    cat.insert(config("a", "second"));
    assert_eq!(cat.get("a").unwrap().model_name, "second");
    assert_eq!(cat.get("b").unwrap().model_name, "other");
    assert!(cat.get("c").is_none());
    assert_eq!(cat.configs().len(), 2);
}

#[test]
fn default_flag_is_true() {
    assert!(default_true());
    assert_eq!(ModelType::default(), ModelType::LLM);
}

#[test]
fn load_message_names_file_and_size() {
    let mut p = ProgressTracker::new();
    let _ = p.init(8, "w.rkllm");
    let m = p.load_started("w.rkllm", "8 B");
    assert_eq!((m.current, m.total, m.download_done, m.finished), (0, 8, true, false));
    assert_eq!(m.message, "下載完成，開始載入 RKLLM 核心 w.rkllm (8 B)...");
}

#[test]
fn progress_after_text_is_dropped() {
    let mut tracker = ProgressTracker::new();
    let mut enc = StreamEncoder::new("id".to_string(), 1, "m1".to_string());
    let first = enc.progress(tracker.init(5, "f")).unwrap();
    assert_eq!(first.choices[0].delta.as_ref().unwrap().role, Some(Role::System));
    let text = enc.next("hi".to_string());
    assert_eq!(text.choices[0].delta.as_ref().unwrap().role, Some(Role::Assistant));
    assert!(enc.progress(tracker.finish()).is_none());
}

#[test]
fn rendered_prompt_reports_failure() {
    let tok: AutoTokenizer = serde_json::from_str("{}").unwrap();
    assert_eq!(rendered_prompt(&tok, &vec![user("hi")]), None);
    let tok: AutoTokenizer =
        serde_json::from_str(r#"{"chat_template": "{% for m in messages %}{{ m.content }}{% endfor %}"}"#).unwrap();
    assert_eq!(rendered_prompt(&tok, &vec![user("hi"), user("!")]), Some("hi!".to_string()));
}
