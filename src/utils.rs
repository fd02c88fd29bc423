//! Model configuration, the model catalog, and load/download progress.

use vstd::prelude::*;

use crate::text::{decimal, decimal_of};

verus! {

#[derive(Debug, Clone, Copy, PartialEq, Eq, Structural)]
pub enum ModelType {
    LLM,
    ASR,
}

impl Default for ModelType {
    fn default() -> (r: Self)
        ensures
            r == ModelType::LLM,
    {
        ModelType::LLM
    }
}

/// Identity and load parameters of one model.
#[derive(Debug, Clone)]
pub struct ModelConfig {
    pub model_repo: String,
    pub model_name: String,
    pub model_type: ModelType,
    pub model_path: Option<String>,
    pub tokenizer_repo: Option<String>,
    /// Where the configuration was read from.
    pub _asserts_path: String,
    pub cache_path: Option<String>,
    pub think: Option<bool>,
}

/// One load/download status update.
#[derive(Debug, Clone)]
pub struct ProgressMessage {
    pub current: usize,
    pub total: usize,
    pub download_done: bool,
    pub finished: bool,
    pub message: String,
}

/// What `indicatif::HumanBytes` displays for a byte count.
pub uninterp spec fn human_bytes_of(n: u64) -> Seq<char>;

/// Relies on `indicatif::HumanBytes`'s `Display`: a text that depends on the
/// byte count alone.
#[verifier::external_body]
fn human_bytes(n: u64) -> (r: String)
    ensures
        r@ == human_bytes_of(n),
{
    indicatif::HumanBytes(n).to_string()
}

/// `m` reports `current` of `total` with the given flags and text.
pub open spec fn is_progress(
    m: ProgressMessage,
    current: usize,
    total: usize,
    download_done: bool,
    finished: bool,
    text: Seq<char>,
) -> bool {
    &&& m.current == current
    &&& m.total == total
    &&& m.download_done == download_done
    &&& m.finished == finished
    &&& m.message@ == text
}

/// The text announcing that `filename`, whose size reads `size_text`, is
/// being loaded.
pub open spec fn load_text(filename: Seq<char>, size_text: Seq<char>) -> Seq<char> {
    "下載完成，開始載入 RKLLM 核心 "@ + filename + " ("@ + size_text + ")..."@
}

/// Counts downloaded bytes and words the progress updates of one model load.
#[derive(Debug, Clone, Copy)]
pub struct ProgressTracker {
    pub current: usize,
    pub total: usize,
}

impl ProgressTracker {
    pub fn new() -> (r: Self)
        ensures
            r.current == 0,
            r.total == 0,
    {
        ProgressTracker { current: 0, total: 0 }
    }

    /// A download of `size` bytes of `filename` begins.
    pub fn init(&mut self, size: usize, filename: &str) -> (m: ProgressMessage)
        ensures
            final(self).current == 0,
            final(self).total == size,
            is_progress(m, 0, size, false, false, "開始下載模型："@ + filename@),
    {
        self.total = size;
        self.current = 0;
        let mut text = String::from_str("開始下載模型：");
        text.append(filename);
        ProgressMessage { current: 0, total: size, download_done: false, finished: false, message: text }
    }

    /// Another `size` bytes have arrived.
    pub fn update(&mut self, size: usize) -> (m: ProgressMessage)
        requires
            old(self).current + size <= usize::MAX,
        ensures
            final(self).current == old(self).current + size,
            final(self).total == old(self).total,
            is_progress(
                m,
                final(self).current,
                old(self).total,
                false,
                false,
                "下載中... "@ + decimal_of(final(self).current as nat) + "/"@ + decimal_of(
                    old(self).total as nat,
                ) + "\n"@,
            ),
    {
        self.current = self.current + size;
        let mut text = String::from_str("下載中... ");
        let cur = decimal(self.current as u64);
        text.append(cur.as_str());
        text.append("/");
        let tot = decimal(self.total as u64);
        text.append(tot.as_str());
        text.append("\n");
        ProgressMessage {
            current: self.current,
            total: self.total,
            download_done: false,
            finished: false,
            message: text,
        }
    }

    /// The download is complete.
    pub fn finish(&self) -> (m: ProgressMessage)
        ensures
            is_progress(m, self.total, self.total, true, false, "下載完成，正在初始化模型..."@),
    {
        ProgressMessage {
            current: self.total,
            total: self.total,
            download_done: true,
            finished: false,
            message: String::from_str("下載完成，正在初始化模型..."),
        }
    }

    /// Loading `size` bytes of `filename` into the accelerator begins.
    pub fn model_load(&self, size: usize, filename: &str) -> (m: ProgressMessage)
        ensures
            is_progress(
                m,
                self.current,
                self.total,
                true,
                false,
                load_text(filename@, human_bytes_of(size as u64)),
            ),
    {
        let human = human_bytes(size as u64);
        self.load_started(filename, human.as_str())
    }

    /// Loading `filename`, whose size reads `size_text`, begins.
    pub fn load_started(&self, filename: &str, size_text: &str) -> (m: ProgressMessage)
        ensures
            is_progress(m, self.current, self.total, true, false, load_text(filename@, size_text@)),
    {
        let mut text = String::from_str("下載完成，開始載入 RKLLM 核心 ");
        text.append(filename);
        text.append(" (");
        text.append(size_text);
        text.append(")...");
        ProgressMessage {
            current: self.current,
            total: self.total,
            download_done: true,
            finished: false,
            message: text,
        }
    }

    /// The periodic update while loading has taken `elapsed_secs` seconds
    /// so far; it reports the bytes received as both count and total.
    pub fn loading_tick(&self, elapsed_secs: u64) -> (m: ProgressMessage)
        ensures
            is_progress(
                m,
                self.current,
                self.current,
                true,
                false,
                "讀取模型中，已過去"@ + decimal_of(elapsed_secs as nat) + "秒"@,
            ),
    {
        let mut text = String::from_str("讀取模型中，已過去");
        let secs = decimal(elapsed_secs);
        text.append(secs.as_str());
        text.append("秒");
        ProgressMessage {
            current: self.current,
            total: self.current,
            download_done: true,
            finished: false,
            message: text,
        }
    }

    /// The model is loaded and about to serve.
    pub fn model_finished(&self) -> (m: ProgressMessage)
        ensures
            is_progress(
                m,
                self.current,
                self.total,
                true,
                true,
                "模型完全初始化完成，正在啟動 Actor。"@,
            ),
    {
        ProgressMessage {
            current: self.current,
            total: self.total,
            download_done: true,
            finished: true,
            message: String::from_str("模型完全初始化完成，正在啟動 Actor。"),
        }
    }
}

/// The configuration registered under `id`: the last one whose repository
/// is `id`.
pub open spec fn find_config(configs: Seq<ModelConfig>, id: Seq<char>) -> Option<ModelConfig>
    decreases configs.len(),
{
    if configs.len() == 0 {
        None
    } else if configs.last().model_repo@ == id {
        Some(configs.last())
    } else {
        find_config(configs.drop_last(), id)
    }
}

/// No two configurations share a repository.
pub open spec fn repos_unique(configs: Seq<ModelConfig>) -> bool {
    forall|i: int, j: int|
        0 <= i < j < configs.len() ==> #[trigger] configs[i].model_repo@
            != #[trigger] configs[j].model_repo@
}

proof fn lemma_find_config(configs: Seq<ModelConfig>, id: Seq<char>)
    requires
        repos_unique(configs),
    ensures
        forall|i: int|
            0 <= i < configs.len() && #[trigger] configs[i].model_repo@ == id ==> find_config(
                configs,
                id,
            ) == Some(configs[i]),
        (forall|i: int| 0 <= i < configs.len() ==> #[trigger] configs[i].model_repo@ != id)
            ==> find_config(configs, id) is None,
    decreases configs.len(),
{
    if configs.len() > 0 {
        let rest = configs.drop_last();
        assert(repos_unique(rest)) by {
            assert forall|i: int, j: int| 0 <= i < j < rest.len() implies #[trigger] rest[i].model_repo@
                != #[trigger] rest[j].model_repo@ by {
                assert(rest[i] == configs[i]);
                assert(rest[j] == configs[j]);
            }
        }
        lemma_find_config(rest, id);
        assert forall|i: int|
            0 <= i < configs.len() && #[trigger] configs[i].model_repo@ == id implies find_config(
                configs,
                id,
            ) == Some(configs[i]) by {
            if i < configs.len() - 1 {
                assert(rest[i] == configs[i]);
            }
        }
        if forall|i: int| 0 <= i < configs.len() ==> #[trigger] configs[i].model_repo@ != id {
            assert forall|i: int| 0 <= i < rest.len() implies #[trigger] rest[i].model_repo@ != id by {
                assert(rest[i] == configs[i]);
            }
            assert(configs[configs.len() - 1].model_repo@ != id);
        }
    }
}

/// The model configurations known to the server, keyed by repository.
#[derive(Debug, Clone)]
pub struct ModelCatalog {
    configs: Vec<ModelConfig>,
}

impl ModelCatalog {
    /// The configurations, one per repository, in order of registration.
    pub closed spec fn entries(&self) -> Seq<ModelConfig> {
        self.configs@
    }

    pub closed spec fn wf(&self) -> bool {
        repos_unique(self.configs@)
    }

    /// The configuration of model `id`, if there is one.
    pub open spec fn lookup(&self, id: Seq<char>) -> Option<ModelConfig> {
        find_config(self.entries(), id)
    }

    pub fn new() -> (r: Self)
        ensures
            r.wf(),
            r.entries().len() == 0,
            forall|id: Seq<char>| #[trigger] r.lookup(id) is None,
    {
        ModelCatalog { configs: Vec::new() }
    }

    /// Registers `config` under its repository, replacing any earlier one.
    pub fn insert(&mut self, config: ModelConfig)
        requires
            old(self).wf(),
        ensures
            final(self).wf(),
            final(self).lookup(config.model_repo@) == Some(config),
            forall|id: Seq<char>|
                id != config.model_repo@ ==> #[trigger] final(self).lookup(id) == old(
                    self,
                ).lookup(id),
    {
        let ghost old_configs = self.configs@;
        let mut i: usize = 0;
        while i < self.configs.len()
            invariant
                i <= self.configs@.len(),
                self.configs@ == old_configs,
                forall|j: int| 0 <= j < i ==> #[trigger] old_configs[j].model_repo@ != config.model_repo@,
            ensures
                i <= self.configs@.len(),
                self.configs@ == old_configs,
                forall|j: int| 0 <= j < i ==> #[trigger] old_configs[j].model_repo@ != config.model_repo@,
                i < self.configs@.len() ==> old_configs[i as int].model_repo@ == config.model_repo@,
            decreases self.configs@.len() - i,
        {
            if self.configs[i].model_repo == config.model_repo {
                break;
            }
            i = i + 1;
        }
        let ghost key = config.model_repo@;
        if i < self.configs.len() {
            let ghost c = config;
            self.configs.set(i, config);
            proof {
                let s = self.configs@;
                assert(s == old_configs.update(i as int, c));
                assert(repos_unique(s)) by {
                    assert forall|a: int, b: int| 0 <= a < b < s.len() implies #[trigger] s[a].model_repo@
                        != #[trigger] s[b].model_repo@ by {
                        assert(old_configs[a].model_repo@ != old_configs[b].model_repo@);
                    }
                }
                lemma_find_config(s, key);
                assert(s[i as int] == c);
                assert forall|id: Seq<char>| id != key implies #[trigger] find_config(s, id)
                    == find_config(old_configs, id) by {
                    lemma_find_config(s, id);
                    lemma_find_config(old_configs, id);
                    if exists|j: int| 0 <= j < s.len() && s[j].model_repo@ == id {
                        let j = choose|j: int| 0 <= j < s.len() && s[j].model_repo@ == id;
                        assert(j != i);
                        assert(s[j] == old_configs[j]);
                    } else {
                        assert forall|j: int| 0 <= j < old_configs.len() implies #[trigger] old_configs[j].model_repo@
                            != id by {
                            if j != i {
                                assert(s[j] == old_configs[j]);
                            }
                        }
                    }
                }
            }
        } else {
            self.configs.push(config);
            proof {
                let s = self.configs@;
                assert(s.drop_last() =~= old_configs);
                assert(repos_unique(s)) by {
                    assert forall|a: int, b: int| 0 <= a < b < s.len() implies #[trigger] s[a].model_repo@
                        != #[trigger] s[b].model_repo@ by {
                        if b == s.len() - 1 {
                            assert(old_configs[a].model_repo@ != key);
                        } else {
                            assert(old_configs[a].model_repo@ != old_configs[b].model_repo@);
                        }
                    }
                }
            }
        }
    }

    /// The configuration of model `id`.
    pub fn get(&self, id: &str) -> (r: Option<&ModelConfig>)
        ensures
            r is Some <==> self.lookup(id@) is Some,
            r matches Some(c) ==> self.lookup(id@) == Some(*c),
    {
        let key = id.to_owned();
        let mut i = self.configs.len();
        assert(self.configs@.subrange(0, i as int) =~= self.configs@);
        while i > 0
            invariant
                i <= self.configs@.len(),
                key@ == id@,
                find_config(self.configs@, id@) == find_config(
                    self.configs@.subrange(0, i as int),
                    id@,
                ),
            decreases i,
        {
            proof {
                assert(self.configs@.subrange(0, i as int).drop_last() =~= self.configs@.subrange(
                    0,
                    i - 1,
                ));
            }
            if self.configs[i - 1].model_repo == key {
                return Some(&self.configs[i - 1]);
            }
            i = i - 1;
        }
        None
    }

    /// Every configuration, in order of registration.
    pub fn configs(&self) -> (r: &Vec<ModelConfig>)
        ensures
            r@ == self.entries(),
    {
        &self.configs
    }
}

/// What loading a model needs from its configuration.
#[derive(Debug, Clone)]
pub struct LoadPlan {
    /// Where the model artifact comes from.
    pub model_repo: String,
    /// Where the tokenizer configuration comes from.
    pub tokenizer_repo: String,
    /// The artifact's file name within the repository.
    pub filename: String,
    /// Where the prompt cache is saved, if it is.
    pub prompt_cache_path: Option<String>,
    /// Whether prompts are rendered with thinking enabled.
    pub think: bool,
}

/// `p` is the load plan of `c`: the tokenizer comes from the model's own
/// repository and the artifact is `model.rkllm` unless the configuration
/// says otherwise.
pub open spec fn is_load_plan(p: LoadPlan, c: ModelConfig) -> bool {
    &&& p.model_repo@ == c.model_repo@
    &&& p.tokenizer_repo@ == match c.tokenizer_repo {
        Some(t) => t@,
        None => c.model_repo@,
    }
    &&& p.filename@ == match c.model_path {
        Some(f) => f@,
        None => "model.rkllm"@,
    }
    &&& match (p.prompt_cache_path, c.cache_path) {
        (Some(a), Some(b)) => a@ == b@,
        (None, None) => true,
        _ => false,
    }
    &&& p.think == match c.think {
        Some(t) => t,
        None => false,
    }
}

pub fn load_plan(config: &ModelConfig) -> (p: LoadPlan)
    ensures
        is_load_plan(p, *config),
{
    let tokenizer_repo = match &config.tokenizer_repo {
        Some(t) => t.clone(),
        None => config.model_repo.clone(),
    };
    let filename = match &config.model_path {
        Some(f) => f.clone(),
        None => String::from_str("model.rkllm"),
    };
    let prompt_cache_path = match &config.cache_path {
        Some(c) => Some(c.clone()),
        None => None,
    };
    let think = match config.think {
        Some(t) => t,
        None => false,
    };
    LoadPlan {
        model_repo: config.model_repo.clone(),
        tokenizer_repo,
        filename,
        prompt_cache_path,
        think,
    }
}

} // verus!
