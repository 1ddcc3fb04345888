//! The catalog of integrations the dashboard lists, and how the status of
//! each follows from the agent's configuration.
use crate::tags::starts_with;
use vstd::prelude::*;

verus! {

/// The groups the catalog is shown in.
#[derive(Debug, Clone, Copy, PartialEq, Eq, Hash, Structural)]
pub enum IntegrationCategory {
    Chat,
    AiModel,
    Productivity,
    MusicAudio,
    SmartHome,
    ToolsAutomation,
    MediaCreative,
    Social,
    Platform,
}

impl IntegrationCategory {
    /// Every category, in the order of display.
    pub fn all() -> (r: &'static [IntegrationCategory])
        ensures
            r@ == seq![
                IntegrationCategory::Chat,
                IntegrationCategory::AiModel,
                IntegrationCategory::Productivity,
                IntegrationCategory::MusicAudio,
                IntegrationCategory::SmartHome,
                IntegrationCategory::ToolsAutomation,
                IntegrationCategory::MediaCreative,
                IntegrationCategory::Social,
                IntegrationCategory::Platform,
            ],
    {
        &[
            IntegrationCategory::Chat,
            IntegrationCategory::AiModel,
            IntegrationCategory::Productivity,
            IntegrationCategory::MusicAudio,
            IntegrationCategory::SmartHome,
            IntegrationCategory::ToolsAutomation,
            IntegrationCategory::MediaCreative,
            IntegrationCategory::Social,
            IntegrationCategory::Platform,
        ]
    }
}

/// Where an integration stands.
#[derive(Debug, Clone, Copy, PartialEq, Eq, Structural)]
pub enum IntegrationStatus {
    /// Configured and in use.
    Active,
    /// Ready to be configured.
    Available,
    /// Not offered yet.
    ComingSoon,
}

/// The chat channels that can be configured.
#[derive(Debug, Clone, Copy, PartialEq, Eq, Hash, Structural)]
pub enum ChannelKind {
    Telegram,
    Discord,
    Slack,
    Webhook,
    WhatsApp,
    Signal,
    IMessage,
    Matrix,
    DingTalk,
    Qq,
    Email,
}

/// Providers known under several regional names.
#[derive(Debug, Clone, Copy, PartialEq, Eq, Hash, Structural)]
pub enum ProviderFamily {
    Moonshot,
    Zai,
    Glm,
    Minimax,
    Qwen,
    Qianfan,
}

/// The operating system the agent runs on.
#[derive(Debug, Clone, Copy, PartialEq, Eq, Hash, Structural)]
pub enum HostOs {
    MacOs,
    Linux,
    Other,
}

/// How an integration's status follows from the configuration.
#[derive(Debug, Clone, Copy)]
pub enum StatusRule {
    /// Active where the channel is configured.
    Channel(ChannelKind),
    /// Active where this is the default provider.
    Provider(&'static str),
    /// Active where this is the default provider and an API key is set.
    ProviderWithKey(&'static str),
    /// Active where the default provider is one of the family's names.
    Family(ProviderFamily),
    /// Active where the default model's name starts with this prefix.
    ModelPrefix(&'static str),
    /// Active on this operating system.
    Host(HostOs),
    /// Always this status.
    Fixed(IntegrationStatus),
}

/// One integration of the catalog.
#[derive(Debug, Clone, Copy)]
pub struct IntegrationEntry {
    pub name: &'static str,
    pub description: &'static str,
    pub category: IntegrationCategory,
    pub status: StatusRule,
}

/// What of the agent's configuration the statuses depend on.
#[derive(Debug, Clone)]
pub struct IntegrationContext {
    /// The chat channels that are configured.
    pub channels: Vec<ChannelKind>,
    pub default_provider: Option<String>,
    /// The regional family that the default provider's name belongs to, if
    /// any.
    pub provider_family: Option<ProviderFamily>,
    pub default_model: Option<String>,
    pub has_api_key: bool,
    pub host: HostOs,
}

pub open spec fn active_if(b: bool) -> IntegrationStatus {
    if b {
        IntegrationStatus::Active
    } else {
        IntegrationStatus::Available
    }
}

pub open spec fn provider_is(ctx: IntegrationContext, p: Seq<char>) -> bool {
    ctx.default_provider matches Some(d) && d@ == p
}

/// The status that `rule` gives under `ctx`.
pub open spec fn rule_status(rule: StatusRule, ctx: IntegrationContext) -> IntegrationStatus {
    match rule {
        StatusRule::Channel(k) => active_if(ctx.channels@.contains(k)),
        StatusRule::Provider(p) => active_if(provider_is(ctx, p@)),
        StatusRule::ProviderWithKey(p) => active_if(provider_is(ctx, p@) && ctx.has_api_key),
        StatusRule::Family(f) => active_if(ctx.provider_family == Some(f)),
        StatusRule::ModelPrefix(p) => active_if(
            ctx.default_model matches Some(m) && starts_with(m@, p@),
        ),
        StatusRule::Host(h) => active_if(ctx.host == h),
        StatusRule::Fixed(s) => s,
    }
}

fn same_text(a: &str, b: &str) -> (r: bool)
    ensures
        r == (a@ == b@),
{
    let x = crate::text::chars_of(a);
    let y = crate::text::chars_of(b);
    if x.len() != y.len() {
        return false;
    }
    let r = crate::text::matches_at(&x, 0, &y);
    assert(x@.subrange(0, y@.len() as int) =~= x@);
    r
}

impl IntegrationEntry {
    /// The entry's status under `ctx`.
    pub fn status_in(&self, ctx: &IntegrationContext) -> (r: IntegrationStatus)
        ensures
            r == rule_status(self.status, *ctx),
    {
        let active = match self.status {
            StatusRule::Channel(k) => {
                let mut found = false;
                let mut i: usize = 0;
                while i < ctx.channels.len()
                    invariant
                        i <= ctx.channels@.len(),
                        found == (exists|j: int| 0 <= j < i && ctx.channels@[j] == k),
                    decreases ctx.channels.len() - i,
                {
                    if ctx.channels[i] == k {
                        found = true;
                    }
                    i = i + 1;
                }
                proof {
                    if found {
                        let j = choose|j: int| 0 <= j < i && ctx.channels@[j] == k;
                        assert(ctx.channels@.contains(k));
                    } else {
                        assert(!ctx.channels@.contains(k));
                    }
                }
                found
            },
            StatusRule::Provider(p) => match &ctx.default_provider {
                Some(d) => same_text(d.as_str(), p),
                None => false,
            },
            StatusRule::ProviderWithKey(p) => match &ctx.default_provider {
                Some(d) => same_text(d.as_str(), p) && ctx.has_api_key,
                None => false,
            },
            StatusRule::Family(f) => match ctx.provider_family {
                Some(g) => g == f,
                None => false,
            },
            StatusRule::ModelPrefix(p) => match &ctx.default_model {
                Some(m) => {
                    let mc = crate::text::chars_of(m.as_str());
                    let pc = crate::text::chars_of(p);
                    let r = pc.len() <= mc.len() && crate::text::matches_at(&mc, 0, &pc);
                    proof {
                        if pc@.len() <= mc@.len() {
                            assert(mc@.take(pc@.len() as int) =~= mc@.subrange(
                                0,
                                pc@.len() as int,
                            ));
                        }
                    }
                    r
                },
                None => false,
            },
            StatusRule::Host(h) => ctx.host == h,
            StatusRule::Fixed(s) => {
                return s;
            },
        };
        if active {
            IntegrationStatus::Active
        } else {
            IntegrationStatus::Available
        }
    }
}

/// The catalog, in the order of display.
pub open spec fn catalog() -> Seq<IntegrationEntry> {
    seq![
        IntegrationEntry {
            name: "Telegram",
            description: "机器人 API — 长轮询",
            category: IntegrationCategory::Chat,
            status: StatusRule::Channel(ChannelKind::Telegram),
        },
        IntegrationEntry {
            name: "Discord",
            description: "服务器、频道和私信",
            category: IntegrationCategory::Chat,
            status: StatusRule::Channel(ChannelKind::Discord),
        },
        IntegrationEntry {
            name: "Slack",
            description: "通过 Web API 的工作区应用",
            category: IntegrationCategory::Chat,
            status: StatusRule::Channel(ChannelKind::Slack),
        },
        IntegrationEntry {
            name: "Webhooks",
            description: "触发器的 HTTP 端点",
            category: IntegrationCategory::Chat,
            status: StatusRule::Channel(ChannelKind::Webhook),
        },
        IntegrationEntry {
            name: "WhatsApp",
            description: "通过 webhook 的 Meta Cloud API",
            category: IntegrationCategory::Chat,
            status: StatusRule::Channel(ChannelKind::WhatsApp),
        },
        IntegrationEntry {
            name: "Signal",
            description: "通过 signal-cli 的隐私优先",
            category: IntegrationCategory::Chat,
            status: StatusRule::Channel(ChannelKind::Signal),
        },
        IntegrationEntry {
            name: "iMessage",
            description: "macOS AppleScript 桥接",
            category: IntegrationCategory::Chat,
            status: StatusRule::Channel(ChannelKind::IMessage),
        },
        IntegrationEntry {
            name: "Microsoft Teams",
            description: "企业聊天支持",
            category: IntegrationCategory::Chat,
            status: StatusRule::Fixed(IntegrationStatus::ComingSoon),
        },
        IntegrationEntry {
            name: "Matrix",
            description: "Matrix 协议（Element）",
            category: IntegrationCategory::Chat,
            status: StatusRule::Channel(ChannelKind::Matrix),
        },
        IntegrationEntry {
            name: "Nostr",
            description: "去中心化私信（NIP-04）",
            category: IntegrationCategory::Chat,
            status: StatusRule::Fixed(IntegrationStatus::ComingSoon),
        },
        IntegrationEntry {
            name: "WebChat",
            description: "基于浏览器的聊天界面",
            category: IntegrationCategory::Chat,
            status: StatusRule::Fixed(IntegrationStatus::ComingSoon),
        },
        IntegrationEntry {
            name: "Nextcloud Talk",
            description: "自托管的 Nextcloud 聊天",
            category: IntegrationCategory::Chat,
            status: StatusRule::Fixed(IntegrationStatus::ComingSoon),
        },
        IntegrationEntry {
            name: "Zalo",
            description: "Zalo 机器人 API",
            category: IntegrationCategory::Chat,
            status: StatusRule::Fixed(IntegrationStatus::ComingSoon),
        },
        IntegrationEntry {
            name: "DingTalk",
            description: "钉钉流模式",
            category: IntegrationCategory::Chat,
            status: StatusRule::Channel(ChannelKind::DingTalk),
        },
        IntegrationEntry {
            name: "QQ Official",
            description: "腾讯 QQ 机器人 SDK",
            category: IntegrationCategory::Chat,
            status: StatusRule::Channel(ChannelKind::Qq),
        },
        IntegrationEntry {
            name: "OpenRouter",
            description: "GPT-5.2、Gemini 3.1 Pro 等多家模型",
            category: IntegrationCategory::AiModel,
            status: StatusRule::ProviderWithKey("openrouter"),
        },
        IntegrationEntry {
            name: "Anthropic",
            description: "Anthropic 官方模型 API",
            category: IntegrationCategory::AiModel,
            status: StatusRule::Provider("anthropic"),
        },
        IntegrationEntry {
            name: "OpenAI",
            description: "GPT-5.2、GPT-5.2-Codex",
            category: IntegrationCategory::AiModel,
            status: StatusRule::Provider("openai"),
        },
        IntegrationEntry {
            name: "Google",
            description: "Gemini 3.1 Pro、Gemini 3 Flash",
            category: IntegrationCategory::AiModel,
            status: StatusRule::ModelPrefix("google/"),
        },
        IntegrationEntry {
            name: "DeepSeek",
            description: "DeepSeek-Reasoner、DeepSeek-Chat",
            category: IntegrationCategory::AiModel,
            status: StatusRule::ModelPrefix("deepseek/"),
        },
        IntegrationEntry {
            name: "xAI",
            description: "Grok 4、Grok 3",
            category: IntegrationCategory::AiModel,
            status: StatusRule::ModelPrefix("x-ai/"),
        },
        IntegrationEntry {
            name: "Mistral",
            description: "Mistral Large 最新版、Codestral",
            category: IntegrationCategory::AiModel,
            status: StatusRule::ModelPrefix("mistral"),
        },
        IntegrationEntry {
            name: "Ollama",
            description: "本地模型（Llama 等）",
            category: IntegrationCategory::AiModel,
            status: StatusRule::Provider("ollama"),
        },
        IntegrationEntry {
            name: "Perplexity",
            description: "Sonar Pro、Sonar Reasoning Pro",
            category: IntegrationCategory::AiModel,
            status: StatusRule::Provider("perplexity"),
        },
        IntegrationEntry {
            name: "Hugging Face",
            description: "开源模型",
            category: IntegrationCategory::AiModel,
            status: StatusRule::Fixed(IntegrationStatus::ComingSoon),
        },
        IntegrationEntry {
            name: "LM Studio",
            description: "本地模型服务器",
            category: IntegrationCategory::AiModel,
            status: StatusRule::Fixed(IntegrationStatus::ComingSoon),
        },
        IntegrationEntry {
            name: "Venice",
            description: "Venice Llama 3.3 70B 和前沿混合模型",
            category: IntegrationCategory::AiModel,
            status: StatusRule::Provider("venice"),
        },
        IntegrationEntry {
            name: "Vercel AI",
            description: "GPT-5.2 和多提供商路由的网关",
            category: IntegrationCategory::AiModel,
            status: StatusRule::Provider("vercel"),
        },
        IntegrationEntry {
            name: "Cloudflare AI",
            description: "Workers AI + Llama 3.3 / 网关路由",
            category: IntegrationCategory::AiModel,
            status: StatusRule::Provider("cloudflare"),
        },
        IntegrationEntry {
            name: "Moonshot",
            description: "Kimi 2.5 和 Kimi Coding",
            category: IntegrationCategory::AiModel,
            status: StatusRule::Family(ProviderFamily::Moonshot),
        },
        IntegrationEntry {
            name: "Synthetic",
            description: "Synthetic-1 和 synthetic 系列模型",
            category: IntegrationCategory::AiModel,
            status: StatusRule::Provider("synthetic"),
        },
        IntegrationEntry {
            name: "OpenCode Zen",
            description: "OpenCode Zen 和编码专用模型",
            category: IntegrationCategory::AiModel,
            status: StatusRule::Provider("opencode"),
        },
        IntegrationEntry {
            name: "Z.AI",
            description: "GLM 4.7 和 Z.AI 托管变体",
            category: IntegrationCategory::AiModel,
            status: StatusRule::Family(ProviderFamily::Zai),
        },
        IntegrationEntry {
            name: "GLM",
            description: "GLM 4.7 和 GLM 4.5 系列",
            category: IntegrationCategory::AiModel,
            status: StatusRule::Family(ProviderFamily::Glm),
        },
        IntegrationEntry {
            name: "MiniMax",
            description: "MiniMax M1 和最新的多模态变体",
            category: IntegrationCategory::AiModel,
            status: StatusRule::Family(ProviderFamily::Minimax),
        },
        IntegrationEntry {
            name: "Qwen",
            description: "Qwen Max 和 Qwen 推理系列",
            category: IntegrationCategory::AiModel,
            status: StatusRule::Family(ProviderFamily::Qwen),
        },
        IntegrationEntry {
            name: "Amazon Bedrock",
            description: "Bedrock 模型目录",
            category: IntegrationCategory::AiModel,
            status: StatusRule::Provider("bedrock"),
        },
        IntegrationEntry {
            name: "Qianfan",
            description: "ERNIE 4.x 和千帆模型目录",
            category: IntegrationCategory::AiModel,
            status: StatusRule::Family(ProviderFamily::Qianfan),
        },
        IntegrationEntry {
            name: "Groq",
            description: "Llama 3.3 70B 多功能和低延迟模型",
            category: IntegrationCategory::AiModel,
            status: StatusRule::Provider("groq"),
        },
        IntegrationEntry {
            name: "Together AI",
            description: "Llama 3.3 70B Turbo 和开源模型托管",
            category: IntegrationCategory::AiModel,
            status: StatusRule::Provider("together"),
        },
        IntegrationEntry {
            name: "Fireworks AI",
            description: "DeepSeek / Llama 高吞吐量推理",
            category: IntegrationCategory::AiModel,
            status: StatusRule::Provider("fireworks"),
        },
        IntegrationEntry {
            name: "Cohere",
            description: "Command R+ (2024年8月) 和嵌入模型",
            category: IntegrationCategory::AiModel,
            status: StatusRule::Provider("cohere"),
        },
        IntegrationEntry {
            name: "GitHub",
            description: "代码、问题、PR",
            category: IntegrationCategory::Productivity,
            status: StatusRule::Fixed(IntegrationStatus::ComingSoon),
        },
        IntegrationEntry {
            name: "Notion",
            description: "工作区和数据库",
            category: IntegrationCategory::Productivity,
            status: StatusRule::Fixed(IntegrationStatus::ComingSoon),
        },
        IntegrationEntry {
            name: "Apple Notes",
            description: "原生 macOS/iOS 笔记",
            category: IntegrationCategory::Productivity,
            status: StatusRule::Fixed(IntegrationStatus::ComingSoon),
        },
        IntegrationEntry {
            name: "Apple Reminders",
            description: "任务管理",
            category: IntegrationCategory::Productivity,
            status: StatusRule::Fixed(IntegrationStatus::ComingSoon),
        },
        IntegrationEntry {
            name: "Obsidian",
            description: "知识图谱笔记",
            category: IntegrationCategory::Productivity,
            status: StatusRule::Fixed(IntegrationStatus::ComingSoon),
        },
        IntegrationEntry {
            name: "Things 3",
            description: "GTD 任务管理器",
            category: IntegrationCategory::Productivity,
            status: StatusRule::Fixed(IntegrationStatus::ComingSoon),
        },
        IntegrationEntry {
            name: "Bear Notes",
            description: "Markdown 笔记",
            category: IntegrationCategory::Productivity,
            status: StatusRule::Fixed(IntegrationStatus::ComingSoon),
        },
        IntegrationEntry {
            name: "Trello",
            description: "看板",
            category: IntegrationCategory::Productivity,
            status: StatusRule::Fixed(IntegrationStatus::ComingSoon),
        },
        IntegrationEntry {
            name: "Linear",
            description: "问题跟踪",
            category: IntegrationCategory::Productivity,
            status: StatusRule::Fixed(IntegrationStatus::ComingSoon),
        },
        IntegrationEntry {
            name: "Spotify",
            description: "音乐播放控制",
            category: IntegrationCategory::MusicAudio,
            status: StatusRule::Fixed(IntegrationStatus::ComingSoon),
        },
        IntegrationEntry {
            name: "Sonos",
            description: "多房间音频",
            category: IntegrationCategory::MusicAudio,
            status: StatusRule::Fixed(IntegrationStatus::ComingSoon),
        },
        IntegrationEntry {
            name: "Shazam",
            description: "歌曲识别",
            category: IntegrationCategory::MusicAudio,
            status: StatusRule::Fixed(IntegrationStatus::ComingSoon),
        },
        IntegrationEntry {
            name: "Home Assistant",
            description: "家庭自动化中心",
            category: IntegrationCategory::SmartHome,
            status: StatusRule::Fixed(IntegrationStatus::ComingSoon),
        },
        IntegrationEntry {
            name: "Philips Hue",
            description: "智能照明",
            category: IntegrationCategory::SmartHome,
            status: StatusRule::Fixed(IntegrationStatus::ComingSoon),
        },
        IntegrationEntry {
            name: "8Sleep",
            description: "智能床垫",
            category: IntegrationCategory::SmartHome,
            status: StatusRule::Fixed(IntegrationStatus::ComingSoon),
        },
        IntegrationEntry {
            name: "Browser",
            description: "Chrome/Chromium 控制",
            category: IntegrationCategory::ToolsAutomation,
            status: StatusRule::Fixed(IntegrationStatus::Available),
        },
        IntegrationEntry {
            name: "Shell",
            description: "终端命令执行",
            category: IntegrationCategory::ToolsAutomation,
            status: StatusRule::Fixed(IntegrationStatus::Active),
        },
        IntegrationEntry {
            name: "File System",
            description: "读写文件",
            category: IntegrationCategory::ToolsAutomation,
            status: StatusRule::Fixed(IntegrationStatus::Active),
        },
        IntegrationEntry {
            name: "Cron",
            description: "计划任务",
            category: IntegrationCategory::ToolsAutomation,
            status: StatusRule::Fixed(IntegrationStatus::Available),
        },
        IntegrationEntry {
            name: "Voice",
            description: "语音唤醒 + 对话模式",
            category: IntegrationCategory::ToolsAutomation,
            status: StatusRule::Fixed(IntegrationStatus::ComingSoon),
        },
        IntegrationEntry {
            name: "Gmail",
            description: "邮件触发器和发送",
            category: IntegrationCategory::ToolsAutomation,
            status: StatusRule::Fixed(IntegrationStatus::ComingSoon),
        },
        IntegrationEntry {
            name: "1Password",
            description: "安全凭证",
            category: IntegrationCategory::ToolsAutomation,
            status: StatusRule::Fixed(IntegrationStatus::ComingSoon),
        },
        IntegrationEntry {
            name: "Weather",
            description: "天气预报和状况",
            category: IntegrationCategory::ToolsAutomation,
            status: StatusRule::Fixed(IntegrationStatus::ComingSoon),
        },
        IntegrationEntry {
            name: "Canvas",
            description: "可视化工作区 + A2UI",
            category: IntegrationCategory::ToolsAutomation,
            status: StatusRule::Fixed(IntegrationStatus::ComingSoon),
        },
        IntegrationEntry {
            name: "Image Gen",
            description: "AI 图像生成",
            category: IntegrationCategory::MediaCreative,
            status: StatusRule::Fixed(IntegrationStatus::ComingSoon),
        },
        IntegrationEntry {
            name: "GIF Search",
            description: "查找完美的 GIF",
            category: IntegrationCategory::MediaCreative,
            status: StatusRule::Fixed(IntegrationStatus::ComingSoon),
        },
        IntegrationEntry {
            name: "Screen Capture",
            description: "截图和屏幕控制",
            category: IntegrationCategory::MediaCreative,
            status: StatusRule::Fixed(IntegrationStatus::ComingSoon),
        },
        IntegrationEntry {
            name: "Camera",
            description: "照片/视频捕获",
            category: IntegrationCategory::MediaCreative,
            status: StatusRule::Fixed(IntegrationStatus::ComingSoon),
        },
        IntegrationEntry {
            name: "Twitter/X",
            description: "发推文、回复、搜索",
            category: IntegrationCategory::Social,
            status: StatusRule::Fixed(IntegrationStatus::ComingSoon),
        },
        IntegrationEntry {
            name: "Email",
            description: "IMAP/SMTP 邮件频道",
            category: IntegrationCategory::Social,
            status: StatusRule::Channel(ChannelKind::Email),
        },
        IntegrationEntry {
            name: "macOS",
            description: "原生支持 + AppleScript",
            category: IntegrationCategory::Platform,
            status: StatusRule::Host(HostOs::MacOs),
        },
        IntegrationEntry {
            name: "Linux",
            description: "原生支持",
            category: IntegrationCategory::Platform,
            status: StatusRule::Host(HostOs::Linux),
        },
        IntegrationEntry {
            name: "Windows",
            description: "推荐 WSL2",
            category: IntegrationCategory::Platform,
            status: StatusRule::Fixed(IntegrationStatus::Available),
        },
        IntegrationEntry {
            name: "iOS",
            description: "通过 Telegram/Discord 聊天",
            category: IntegrationCategory::Platform,
            status: StatusRule::Fixed(IntegrationStatus::Available),
        },
        IntegrationEntry {
            name: "Android",
            description: "通过 Telegram/Discord 聊天",
            category: IntegrationCategory::Platform,
            status: StatusRule::Fixed(IntegrationStatus::Available),
        },
    ]
}

/// The full catalog of integrations.
pub fn all_integrations() -> (r: Vec<IntegrationEntry>)
    ensures
        r@ == catalog(),
        covers_categories(r@),
{
    let r = vec![
        IntegrationEntry {
            name: "Telegram",
            description: "机器人 API — 长轮询",
            category: IntegrationCategory::Chat,
            status: StatusRule::Channel(ChannelKind::Telegram),
        },
        IntegrationEntry {
            name: "Discord",
            description: "服务器、频道和私信",
            category: IntegrationCategory::Chat,
            status: StatusRule::Channel(ChannelKind::Discord),
        },
        IntegrationEntry {
            name: "Slack",
            description: "通过 Web API 的工作区应用",
            category: IntegrationCategory::Chat,
            status: StatusRule::Channel(ChannelKind::Slack),
        },
        IntegrationEntry {
            name: "Webhooks",
            description: "触发器的 HTTP 端点",
            category: IntegrationCategory::Chat,
            status: StatusRule::Channel(ChannelKind::Webhook),
        },
        IntegrationEntry {
            name: "WhatsApp",
            description: "通过 webhook 的 Meta Cloud API",
            category: IntegrationCategory::Chat,
            status: StatusRule::Channel(ChannelKind::WhatsApp),
        },
        IntegrationEntry {
            name: "Signal",
            description: "通过 signal-cli 的隐私优先",
            category: IntegrationCategory::Chat,
            status: StatusRule::Channel(ChannelKind::Signal),
        },
        IntegrationEntry {
            name: "iMessage",
            description: "macOS AppleScript 桥接",
            category: IntegrationCategory::Chat,
            status: StatusRule::Channel(ChannelKind::IMessage),
        },
        IntegrationEntry {
            name: "Microsoft Teams",
            description: "企业聊天支持",
            category: IntegrationCategory::Chat,
            status: StatusRule::Fixed(IntegrationStatus::ComingSoon),
        },
        IntegrationEntry {
            name: "Matrix",
            description: "Matrix 协议（Element）",
            category: IntegrationCategory::Chat,
            status: StatusRule::Channel(ChannelKind::Matrix),
        },
        IntegrationEntry {
            name: "Nostr",
            description: "去中心化私信（NIP-04）",
            category: IntegrationCategory::Chat,
            status: StatusRule::Fixed(IntegrationStatus::ComingSoon),
        },
        IntegrationEntry {
            name: "WebChat",
            description: "基于浏览器的聊天界面",
            category: IntegrationCategory::Chat,
            status: StatusRule::Fixed(IntegrationStatus::ComingSoon),
        },
        IntegrationEntry {
            name: "Nextcloud Talk",
            description: "自托管的 Nextcloud 聊天",
            category: IntegrationCategory::Chat,
            status: StatusRule::Fixed(IntegrationStatus::ComingSoon),
        },
        IntegrationEntry {
            name: "Zalo",
            description: "Zalo 机器人 API",
            category: IntegrationCategory::Chat,
            status: StatusRule::Fixed(IntegrationStatus::ComingSoon),
        },
        IntegrationEntry {
            name: "DingTalk",
            description: "钉钉流模式",
            category: IntegrationCategory::Chat,
            status: StatusRule::Channel(ChannelKind::DingTalk),
        },
        IntegrationEntry {
            name: "QQ Official",
            description: "腾讯 QQ 机器人 SDK",
            category: IntegrationCategory::Chat,
            status: StatusRule::Channel(ChannelKind::Qq),
        },
        IntegrationEntry {
            name: "OpenRouter",
            description: "GPT-5.2、Gemini 3.1 Pro 等多家模型",
            category: IntegrationCategory::AiModel,
            status: StatusRule::ProviderWithKey("openrouter"),
        },
        IntegrationEntry {
            name: "Anthropic",
            description: "Anthropic 官方模型 API",
            category: IntegrationCategory::AiModel,
            status: StatusRule::Provider("anthropic"),
        },
        IntegrationEntry {
            name: "OpenAI",
            description: "GPT-5.2、GPT-5.2-Codex",
            category: IntegrationCategory::AiModel,
            status: StatusRule::Provider("openai"),
        },
        IntegrationEntry {
            name: "Google",
            description: "Gemini 3.1 Pro、Gemini 3 Flash",
            category: IntegrationCategory::AiModel,
            status: StatusRule::ModelPrefix("google/"),
        },
        IntegrationEntry {
            name: "DeepSeek",
            description: "DeepSeek-Reasoner、DeepSeek-Chat",
            category: IntegrationCategory::AiModel,
            status: StatusRule::ModelPrefix("deepseek/"),
        },
        IntegrationEntry {
            name: "xAI",
            description: "Grok 4、Grok 3",
            category: IntegrationCategory::AiModel,
            status: StatusRule::ModelPrefix("x-ai/"),
        },
        IntegrationEntry {
            name: "Mistral",
            description: "Mistral Large 最新版、Codestral",
            category: IntegrationCategory::AiModel,
            status: StatusRule::ModelPrefix("mistral"),
        },
        IntegrationEntry {
            name: "Ollama",
            description: "本地模型（Llama 等）",
            category: IntegrationCategory::AiModel,
            status: StatusRule::Provider("ollama"),
        },
        IntegrationEntry {
            name: "Perplexity",
            description: "Sonar Pro、Sonar Reasoning Pro",
            category: IntegrationCategory::AiModel,
            status: StatusRule::Provider("perplexity"),
        },
        IntegrationEntry {
            name: "Hugging Face",
            description: "开源模型",
            category: IntegrationCategory::AiModel,
            status: StatusRule::Fixed(IntegrationStatus::ComingSoon),
        },
        IntegrationEntry {
            name: "LM Studio",
            description: "本地模型服务器",
            category: IntegrationCategory::AiModel,
            status: StatusRule::Fixed(IntegrationStatus::ComingSoon),
        },
        IntegrationEntry {
            name: "Venice",
            description: "Venice Llama 3.3 70B 和前沿混合模型",
            category: IntegrationCategory::AiModel,
            status: StatusRule::Provider("venice"),
        },
        IntegrationEntry {
            name: "Vercel AI",
            description: "GPT-5.2 和多提供商路由的网关",
            category: IntegrationCategory::AiModel,
            status: StatusRule::Provider("vercel"),
        },
        IntegrationEntry {
            name: "Cloudflare AI",
            description: "Workers AI + Llama 3.3 / 网关路由",
            category: IntegrationCategory::AiModel,
            status: StatusRule::Provider("cloudflare"),
        },
        IntegrationEntry {
            name: "Moonshot",
            description: "Kimi 2.5 和 Kimi Coding",
            category: IntegrationCategory::AiModel,
            status: StatusRule::Family(ProviderFamily::Moonshot),
        },
        IntegrationEntry {
            name: "Synthetic",
            description: "Synthetic-1 和 synthetic 系列模型",
            category: IntegrationCategory::AiModel,
            status: StatusRule::Provider("synthetic"),
        },
        IntegrationEntry {
            name: "OpenCode Zen",
            description: "OpenCode Zen 和编码专用模型",
            category: IntegrationCategory::AiModel,
            status: StatusRule::Provider("opencode"),
        },
        IntegrationEntry {
            name: "Z.AI",
            description: "GLM 4.7 和 Z.AI 托管变体",
            category: IntegrationCategory::AiModel,
            status: StatusRule::Family(ProviderFamily::Zai),
        },
        IntegrationEntry {
            name: "GLM",
            description: "GLM 4.7 和 GLM 4.5 系列",
            category: IntegrationCategory::AiModel,
            status: StatusRule::Family(ProviderFamily::Glm),
        },
        IntegrationEntry {
            name: "MiniMax",
            description: "MiniMax M1 和最新的多模态变体",
            category: IntegrationCategory::AiModel,
            status: StatusRule::Family(ProviderFamily::Minimax),
        },
        IntegrationEntry {
            name: "Qwen",
            description: "Qwen Max 和 Qwen 推理系列",
            category: IntegrationCategory::AiModel,
            status: StatusRule::Family(ProviderFamily::Qwen),
        },
        IntegrationEntry {
            name: "Amazon Bedrock",
            description: "Bedrock 模型目录",
            category: IntegrationCategory::AiModel,
            status: StatusRule::Provider("bedrock"),
        },
        IntegrationEntry {
            name: "Qianfan",
            description: "ERNIE 4.x 和千帆模型目录",
            category: IntegrationCategory::AiModel,
            status: StatusRule::Family(ProviderFamily::Qianfan),
        },
        IntegrationEntry {
            name: "Groq",
            description: "Llama 3.3 70B 多功能和低延迟模型",
            category: IntegrationCategory::AiModel,
            status: StatusRule::Provider("groq"),
        },
        IntegrationEntry {
            name: "Together AI",
            description: "Llama 3.3 70B Turbo 和开源模型托管",
            category: IntegrationCategory::AiModel,
            status: StatusRule::Provider("together"),
        },
        IntegrationEntry {
            name: "Fireworks AI",
            description: "DeepSeek / Llama 高吞吐量推理",
            category: IntegrationCategory::AiModel,
            status: StatusRule::Provider("fireworks"),
        },
        IntegrationEntry {
            name: "Cohere",
            description: "Command R+ (2024年8月) 和嵌入模型",
            category: IntegrationCategory::AiModel,
            status: StatusRule::Provider("cohere"),
        },
        IntegrationEntry {
            name: "GitHub",
            description: "代码、问题、PR",
            category: IntegrationCategory::Productivity,
            status: StatusRule::Fixed(IntegrationStatus::ComingSoon),
        },
        IntegrationEntry {
            name: "Notion",
            description: "工作区和数据库",
            category: IntegrationCategory::Productivity,
            status: StatusRule::Fixed(IntegrationStatus::ComingSoon),
        },
        IntegrationEntry {
            name: "Apple Notes",
            description: "原生 macOS/iOS 笔记",
            category: IntegrationCategory::Productivity,
            status: StatusRule::Fixed(IntegrationStatus::ComingSoon),
        },
        IntegrationEntry {
            name: "Apple Reminders",
            description: "任务管理",
            category: IntegrationCategory::Productivity,
            status: StatusRule::Fixed(IntegrationStatus::ComingSoon),
        },
        IntegrationEntry {
            name: "Obsidian",
            description: "知识图谱笔记",
            category: IntegrationCategory::Productivity,
            status: StatusRule::Fixed(IntegrationStatus::ComingSoon),
        },
        IntegrationEntry {
            name: "Things 3",
            description: "GTD 任务管理器",
            category: IntegrationCategory::Productivity,
            status: StatusRule::Fixed(IntegrationStatus::ComingSoon),
        },
        IntegrationEntry {
            name: "Bear Notes",
            description: "Markdown 笔记",
            category: IntegrationCategory::Productivity,
            status: StatusRule::Fixed(IntegrationStatus::ComingSoon),
        },
        IntegrationEntry {
            name: "Trello",
            description: "看板",
            category: IntegrationCategory::Productivity,
            status: StatusRule::Fixed(IntegrationStatus::ComingSoon),
        },
        IntegrationEntry {
            name: "Linear",
            description: "问题跟踪",
            category: IntegrationCategory::Productivity,
            status: StatusRule::Fixed(IntegrationStatus::ComingSoon),
        },
        IntegrationEntry {
            name: "Spotify",
            description: "音乐播放控制",
            category: IntegrationCategory::MusicAudio,
            status: StatusRule::Fixed(IntegrationStatus::ComingSoon),
        },
        IntegrationEntry {
            name: "Sonos",
            description: "多房间音频",
            category: IntegrationCategory::MusicAudio,
            status: StatusRule::Fixed(IntegrationStatus::ComingSoon),
        },
        IntegrationEntry {
            name: "Shazam",
            description: "歌曲识别",
            category: IntegrationCategory::MusicAudio,
            status: StatusRule::Fixed(IntegrationStatus::ComingSoon),
        },
        IntegrationEntry {
            name: "Home Assistant",
            description: "家庭自动化中心",
            category: IntegrationCategory::SmartHome,
            status: StatusRule::Fixed(IntegrationStatus::ComingSoon),
        },
        IntegrationEntry {
            name: "Philips Hue",
            description: "智能照明",
            category: IntegrationCategory::SmartHome,
            status: StatusRule::Fixed(IntegrationStatus::ComingSoon),
        },
        IntegrationEntry {
            name: "8Sleep",
            description: "智能床垫",
            category: IntegrationCategory::SmartHome,
            status: StatusRule::Fixed(IntegrationStatus::ComingSoon),
        },
        IntegrationEntry {
            name: "Browser",
            description: "Chrome/Chromium 控制",
            category: IntegrationCategory::ToolsAutomation,
            status: StatusRule::Fixed(IntegrationStatus::Available),
        },
        IntegrationEntry {
            name: "Shell",
            description: "终端命令执行",
            category: IntegrationCategory::ToolsAutomation,
            status: StatusRule::Fixed(IntegrationStatus::Active),
        },
        IntegrationEntry {
            name: "File System",
            description: "读写文件",
            category: IntegrationCategory::ToolsAutomation,
            status: StatusRule::Fixed(IntegrationStatus::Active),
        },
        IntegrationEntry {
            name: "Cron",
            description: "计划任务",
            category: IntegrationCategory::ToolsAutomation,
            status: StatusRule::Fixed(IntegrationStatus::Available),
        },
        IntegrationEntry {
            name: "Voice",
            description: "语音唤醒 + 对话模式",
            category: IntegrationCategory::ToolsAutomation,
            status: StatusRule::Fixed(IntegrationStatus::ComingSoon),
        },
        IntegrationEntry {
            name: "Gmail",
            description: "邮件触发器和发送",
            category: IntegrationCategory::ToolsAutomation,
            status: StatusRule::Fixed(IntegrationStatus::ComingSoon),
        },
        IntegrationEntry {
            name: "1Password",
            description: "安全凭证",
            category: IntegrationCategory::ToolsAutomation,
            status: StatusRule::Fixed(IntegrationStatus::ComingSoon),
        },
        IntegrationEntry {
            name: "Weather",
            description: "天气预报和状况",
            category: IntegrationCategory::ToolsAutomation,
            status: StatusRule::Fixed(IntegrationStatus::ComingSoon),
        },
        IntegrationEntry {
            name: "Canvas",
            description: "可视化工作区 + A2UI",
            category: IntegrationCategory::ToolsAutomation,
            status: StatusRule::Fixed(IntegrationStatus::ComingSoon),
        },
        IntegrationEntry {
            name: "Image Gen",
            description: "AI 图像生成",
            category: IntegrationCategory::MediaCreative,
            status: StatusRule::Fixed(IntegrationStatus::ComingSoon),
        },
        IntegrationEntry {
            name: "GIF Search",
            description: "查找完美的 GIF",
            category: IntegrationCategory::MediaCreative,
            status: StatusRule::Fixed(IntegrationStatus::ComingSoon),
        },
        IntegrationEntry {
            name: "Screen Capture",
            description: "截图和屏幕控制",
            category: IntegrationCategory::MediaCreative,
            status: StatusRule::Fixed(IntegrationStatus::ComingSoon),
        },
        IntegrationEntry {
            name: "Camera",
            description: "照片/视频捕获",
            category: IntegrationCategory::MediaCreative,
            status: StatusRule::Fixed(IntegrationStatus::ComingSoon),
        },
        IntegrationEntry {
            name: "Twitter/X",
            description: "发推文、回复、搜索",
            category: IntegrationCategory::Social,
            status: StatusRule::Fixed(IntegrationStatus::ComingSoon),
        },
        IntegrationEntry {
            name: "Email",
            description: "IMAP/SMTP 邮件频道",
            category: IntegrationCategory::Social,
            status: StatusRule::Channel(ChannelKind::Email),
        },
        IntegrationEntry {
            name: "macOS",
            description: "原生支持 + AppleScript",
            category: IntegrationCategory::Platform,
            status: StatusRule::Host(HostOs::MacOs),
        },
        IntegrationEntry {
            name: "Linux",
            description: "原生支持",
            category: IntegrationCategory::Platform,
            status: StatusRule::Host(HostOs::Linux),
        },
        IntegrationEntry {
            name: "Windows",
            description: "推荐 WSL2",
            category: IntegrationCategory::Platform,
            status: StatusRule::Fixed(IntegrationStatus::Available),
        },
        IntegrationEntry {
            name: "iOS",
            description: "通过 Telegram/Discord 聊天",
            category: IntegrationCategory::Platform,
            status: StatusRule::Fixed(IntegrationStatus::Available),
        },
        IntegrationEntry {
            name: "Android",
            description: "通过 Telegram/Discord 聊天",
            category: IntegrationCategory::Platform,
            status: StatusRule::Fixed(IntegrationStatus::Available),
        },
    ];
    assert(r@ =~= catalog());
    proof {
        lemma_catalog_complete();
    }
    r
}


/// Every category has an entry in the catalog.
pub open spec fn covers_categories(es: Seq<IntegrationEntry>) -> bool {
    forall|c: IntegrationCategory| #[trigger] has_category(es, c)
}

/// Some entry of `es` belongs to the category `c`.
pub open spec fn has_category(es: Seq<IntegrationEntry>, c: IntegrationCategory) -> bool {
    exists|i: int| 0 <= i < es.len() && #[trigger] es[i].category == c
}

/// The catalog shows every category.
pub proof fn lemma_catalog_complete()
    ensures
        covers_categories(catalog()),
{
    assert(catalog()[0].category == IntegrationCategory::Chat);
    assert(catalog()[15].category == IntegrationCategory::AiModel);
    assert(catalog()[42].category == IntegrationCategory::Productivity);
    assert(catalog()[51].category == IntegrationCategory::MusicAudio);
    assert(catalog()[54].category == IntegrationCategory::SmartHome);
    assert(catalog()[57].category == IntegrationCategory::ToolsAutomation);
    assert(catalog()[66].category == IntegrationCategory::MediaCreative);
    assert(catalog()[70].category == IntegrationCategory::Social);
    assert(catalog()[72].category == IntegrationCategory::Platform);
    assert forall|c: IntegrationCategory| #[trigger] has_category(catalog(), c) by {
        match c {
            IntegrationCategory::Chat => assert(catalog()[0].category == c),
            IntegrationCategory::AiModel => assert(catalog()[15].category == c),
            IntegrationCategory::Productivity => assert(catalog()[42].category == c),
            IntegrationCategory::MusicAudio => assert(catalog()[51].category == c),
            IntegrationCategory::SmartHome => assert(catalog()[54].category == c),
            IntegrationCategory::ToolsAutomation => assert(catalog()[57].category == c),
            IntegrationCategory::MediaCreative => assert(catalog()[66].category == c),
            IntegrationCategory::Social => assert(catalog()[70].category == c),
            IntegrationCategory::Platform => assert(catalog()[72].category == c),
        }
    }
}

} // verus!
