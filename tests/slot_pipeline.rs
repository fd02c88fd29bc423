use std::sync::Mutex;

use llmserver_rs::pipeline::{
    accept_handshake, accept_load, plan_request, ChatError, Handshake, LoadOutcome, SlotPlan,
    HANDSHAKE_TIMEOUT_SECS,
};
use llmserver_rs::registry::{ModelSwap, SlotRegistry, SwapAction};
use llmserver_rs::utils::{ModelCatalog, ModelConfig, ModelType};

fn config(repo: &str) -> ModelConfig {
    ModelConfig {
        model_repo: repo.to_string(),
        model_name: repo.to_string(),
        model_type: ModelType::LLM,
        model_path: None,
        tokenizer_repo: None,
        _asserts_path: String::new(),
        cache_path: None,
        think: None,
    }
}

fn catalog() -> ModelCatalog {
    let mut c = ModelCatalog::new();
    c.insert(config("m1"));
    c.insert(config("m2"));
    c
}

fn keys(r: &SlotRegistry<u32, &'static str>) -> Option<String> {
    r.resident().cloned()
}

#[test]
fn registry_starts_empty() {
    let r: SlotRegistry<u32, &'static str> = SlotRegistry::new();
    assert!(!r.is_resident("m1"));
    assert!(r.get("m1").is_none());
    assert_eq!(keys(&r), None);
}

#[test]
fn registry_install_and_lookup() {
    let mut r: SlotRegistry<u32, &'static str> = SlotRegistry::new();
    let displaced = r.install("m1".to_string(), 1, "stop-m1");
    assert!(displaced.is_empty());
    assert!(r.is_resident("m1"));
    assert!(!r.is_resident("m2"));
    assert_eq!(r.get("m1"), Some(&1));
    assert_eq!(keys(&r), Some("m1".to_string()));
}

#[test]
fn registry_keeps_one_resident_model() {
    let mut r: SlotRegistry<u32, &'static str> = SlotRegistry::new();
    r.install("m1".to_string(), 1, "stop-m1");
    let displaced = r.install("m2".to_string(), 2, "stop-m2");
    assert_eq!(displaced, vec!["stop-m1"]);
    assert!(!r.is_resident("m1"));
    assert!(r.is_resident("m2"));
    assert_eq!(keys(&r), Some("m2".to_string()));
}

#[test]
fn registry_mappings_agree_over_a_sequence() {
    let mut r: SlotRegistry<u32, &'static str> = SlotRegistry::new();
    let ids = ["a", "b", "a", "c"];
    for (n, id) in ids.iter().enumerate() {
        if n % 2 == 1 {
            let _ = r.evict_all();
            assert_eq!(keys(&r), None);
        }
        r.install(id.to_string(), n as u32, "stop");
        assert!(r.is_resident(id));
        assert_eq!(r.get(id), Some(&(n as u32)));
        assert_eq!(keys(&r), Some(id.to_string()));
    }
    let evicted = r.evict_all();
    assert_eq!(evicted, vec!["stop"]);
    assert!(r.evict_all().is_empty());
    assert!(!r.is_resident("c"));
}

#[test]
fn unknown_model_is_not_found() {
    let reg: SlotRegistry<u32, &'static str> = SlotRegistry::new();
    let plan = plan_request(&catalog(), Some(&reg), "nope", true);
    assert!(matches!(plan, Err(ChatError::ModelNotFound)));
    let e = ChatError::ModelNotFound;
    assert_eq!(e.status(), 400);
    let env = e.to_openai_error("nope");
    assert_eq!(env.message, "The model nope does not exist or you do not have access to it.");
    assert_eq!(env.code, "model_not_found");
    assert_eq!(env.kind, "invalid_request_error");
    assert!(env.param.is_none());
}

#[test]
fn unresident_model_without_stream_is_not_loaded() {
    let reg: SlotRegistry<u32, &'static str> = SlotRegistry::new();
    let plan = plan_request(&catalog(), Some(&reg), "m1", false);
    let err = plan.unwrap_err();
    assert!(matches!(err, ChatError::ModelNotLoaded));
    assert_eq!(err.status(), 400);
    let env = err.to_openai_error("m1");
    assert_eq!(env.code, "resource_not_found");
    assert_eq!(env.kind, "resource_not_found");
    assert_eq!(env.message, "Model not load, please run stream version api to fix this problem.");
}

#[test]
fn unresident_model_with_stream_is_loaded() {
    let reg: SlotRegistry<u32, &'static str> = SlotRegistry::new();
    assert_eq!(plan_request(&catalog(), Some(&reg), "m1", true).unwrap(), SlotPlan::EvictAndLoad);
}

#[test]
fn resident_model_is_used() {
    let mut reg: SlotRegistry<u32, &'static str> = SlotRegistry::new();
    reg.install("m1".to_string(), 1, "stop-m1");
    assert_eq!(plan_request(&catalog(), Some(&reg), "m1", false).unwrap(), SlotPlan::UseResident);
    assert_eq!(plan_request(&catalog(), Some(&reg), "m1", true).unwrap(), SlotPlan::UseResident);
}

#[test]
fn concurrent_requests_one_loads_other_busy() {
    let slot: Mutex<SlotRegistry<u32, &'static str>> = Mutex::new(SlotRegistry::new());
    let cat = catalog();
    let first = slot.try_lock().unwrap();
    let first_plan = plan_request(&cat, Some(&*first), "m1", true);
    let second = slot.try_lock();
    assert!(second.is_err());
    let second_plan = plan_request::<u32, &'static str>(&cat, None, "m2", true);
    assert_eq!(first_plan.unwrap(), SlotPlan::EvictAndLoad);
    let err = second_plan.unwrap_err();
    assert!(matches!(err, ChatError::Busy));
    let env = err.to_openai_error("m2");
    assert_eq!(env.code, "busy");
    assert_eq!(env.kind, "busy");
    assert_eq!(err.status(), 400);
}

#[test]
fn switching_models_shuts_down_the_old_one_first() {
    let mut reg: SlotRegistry<u32, &'static str> = SlotRegistry::new();
    reg.install("m1".to_string(), 1, "stop-m1");
    let mut events: Vec<String> = Vec::new();
    let plan = plan_request(&catalog(), Some(&reg), "m2", true).unwrap();
    assert_eq!(plan, SlotPlan::EvictAndLoad);
    let mut swap = ModelSwap::begin(&mut reg);
    assert!(!reg.is_resident("m1"));
    loop {
        match swap.next_action() {
            SwapAction::ShutDown(addr) => events.push(format!("shutdown {}", addr)),
            SwapAction::Load => events.push("load m2".to_string()),
            SwapAction::Done => break,
        }
    }
    let displaced = reg.install("m2".to_string(), 2, "stop-m2");
    assert!(displaced.is_empty());
    assert_eq!(events, vec!["shutdown stop-m1".to_string(), "load m2".to_string()]);
    assert!(!reg.is_resident("m1"));
    assert!(reg.is_resident("m2"));
}

#[test]
fn each_error_has_its_envelope() {
    let cases = vec![
        (ChatError::ModelInitFailed("bad".to_string()), 500, "LLM init failed: bad", "model_init_failed", "model_init_failed"),
        (ChatError::ModelSlotTimeout, 503, "Server Busy.", "server_", "internal_error"),
        (ChatError::MailboxError("gone".to_string()), 503, "Internal server error:gone", "server_", "internal_error"),
        (ChatError::ProcessingError, 500, "Internal processing error: ()", "processing_error", "internal_error"),
        (ChatError::InternalJoinError("panic".to_string()), 500, "Join error: panic", "join_failed", "join_failed"),
        (ChatError::Busy, 400, "There is another instance running, please wait other instance finished.", "busy", "busy"),
    ];
    for (e, status, message, code, kind) in cases {
        assert_eq!(e.status(), status);
        let env = e.to_openai_error("m1");
        assert_eq!(env.message, message);
        assert_eq!(env.code, code);
        assert_eq!(env.kind, kind);
    }
}

#[test]
fn load_outcomes_map_to_errors() {
    assert_eq!(accept_load(LoadOutcome::Loaded(3)).unwrap(), 3);
    match accept_load::<u8>(LoadOutcome::InitFailed("x".to_string())) {
        Err(ChatError::ModelInitFailed(d)) => assert_eq!(d, "x"),
        _ => panic!("init failure expected"),
    }
    match accept_load::<u8>(LoadOutcome::JoinFailed("y".to_string())) {
        Err(ChatError::InternalJoinError(d)) => assert_eq!(d, "y"),
        _ => panic!("join failure expected"),
    }
}

#[test]
fn handshake_outcomes_map_to_errors() {
    assert_eq!(accept_handshake(Handshake::Accepted(7)).unwrap(), 7);
    assert!(matches!(accept_handshake::<u8>(Handshake::Rejected), Err(ChatError::ProcessingError)));
    assert!(matches!(accept_handshake::<u8>(Handshake::TimedOut), Err(ChatError::ModelSlotTimeout)));
    match accept_handshake::<u8>(Handshake::MailboxFailed("closed".to_string())) {
        Err(ChatError::MailboxError(d)) => assert_eq!(d, "closed"),
        _ => panic!("mailbox failure expected"),
    }
    assert_eq!(HANDSHAKE_TIMEOUT_SECS, 60);
}

#[test]
fn swap_on_empty_registry_only_loads() {
    let mut reg: SlotRegistry<u32, &'static str> = SlotRegistry::new();
    let mut swap = ModelSwap::begin(&mut reg);
    assert!(matches!(swap.next_action(), SwapAction::Load));
    assert!(matches!(swap.next_action(), SwapAction::Done));
    assert!(matches!(swap.next_action(), SwapAction::Done));
}
