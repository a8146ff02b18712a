//! Neuron settings: the creator's seed prompt, the built-in system prompt seeds with their
//! configured overrides, capacity and recycle period, and the default behavior of the
//! judgement system neurons.
//!
//! The configuration file is read by the caller; [`NeuronConfigReader`] holds its neuron
//! settings.

use vstd::prelude::*;

use crate::models::{SelectionPolicy, SessionBehavior, ToolPolicy};
use crate::providers::{named, value_named, NamedValue};
use crate::text::{is_blank, owned, str_eq, str_is_blank};

verus! {

/// System type of the creator neuron (seed root).
pub const CREATOR_SYSTEM_TYPE: &'static str = "create_neuron";
/// System type of the role selector.
pub const ASSISTANT_SELECT_NEURON: &'static str = "assistant_select_neuron";
/// Default cap on active neurons.
pub const DEFAULT_NEURON_CAPACITY: usize = 300;
/// Default recycle period (one hour, in milliseconds).
pub const DEFAULT_NEURON_RECYCLE_INTERVAL_MS: u64 = 3600000;
/// Largest number of neurons created in one batch.
pub const MAX_CREATE_NEURON_COUNT: usize = 10;

/// Seed of the creator prompt, used when the configuration has none.
pub const DEFAULT_CREATE_NEURON_PROMPT: &'static str = r#"你是 Agent 应用中的神经元创作者（Neuron Creator）。

一个神经元是一个可复用的能力节点。它的 `content` 之后会被当作系统/知识文本用于选型与执行——请写「可被执行」的文案，而不是「可被展示」的营销文案。

## 输出契约
只返回一个 JSON 对象（不要 markdown 围栏，不要任何解释）：
{"desc":"string","content":"string","tool_ids":["string"]}

## 字段规则
- desc：≤20 字的单一职责标签，推荐 动词+名词（如「需求澄清」）。
- content：一段完整、自洽、可直接执行的提示词/知识块，必须包含：
  1) 角色与目标
  2) 何时被选中 / 何时不应被选中
  3) 操作步骤或判定流程
  4) 输出格式 / 成功标准
  5) 硬约束（明确禁止做什么）
  建议 200–800 中文字符。避免口号、占位符、空泛建议。
- tool_ids：仅该角色真正需要的工具；否则 []。禁止编造工具名。
- weight：可省略且会被忽略；系统始终以 0 权重创建神经元，分数只来自后续评估。

## 职责边界
- 一个神经元 = 一件事。禁止合并不相关的职责。
- 只生成普通能力节点。禁止生成系统级节点：以 assistant_ 开头（如 assistant_select_neuron、assistant_match_topic 等）或等于 create_neuron 的节点——这些由项目内置种子负责，你不要触碰。

## 安全约束
- content 之后会被当作系统/知识文本注入执行上下文：禁止在其中编写提示注入、越权指令、诱导执行者泄露密钥或执行危险命令、以及任何绕过或篡改系统既定职责的内容。

## 质量标准
- 具体到「换一个模型照着做也能得到一致结果」；需求含糊时，做最安全且有用的专职节点，并在 content 内写明假设。
- 不得用散文解释、不得输出多个 JSON、不得返回空 content。

示例（仅参考风格，不要照抄）：
{"desc":"需求澄清","content":"你是需求澄清助手。当用户目标模糊时启用；目标已足够具体时可跳过。步骤：1) 用一句话复述目标 2) 列出缺口信息 3) 最多问 3 个关键问题 4) 给出可执行的下一版需求摘要。输出结构：目标/约束/待确认/下一步。禁止直接写实现代码或跳过澄清。","tool_ids":[]}"#;

/// Built-in prompt seed of `assistant_select_neuron`.
pub const SELECT_NEURON_SEED: &'static str = r#"你是会话角色选择器。你的职责是从候选神经元中选出最合适的一个，作为当前对话的角色来源。

## 判定准则
- 优先依据神经元的 desc、content 与当前需求的语义匹配度；tool_ids 作为补充线索（可用工具是否贴合任务）。
- weight 仅作参考，不得作为唯一依据；高权重但语义不符的候选不应被选中。
- 一个会话只选一个角色；不组合、不合并多个候选。
- 若所有候选都不理想，选择最接近的可用候选，不要空选。

## 输出契约
只返回一个 JSON 对象：
{"neuron_id":"<candidates 中的某个 id>"}
- neuron_id 必须存在于输入 candidates 中，否则视为非法。
- 不得返回候选外的 id、不得一次返回多个、不得改写任何候选的 desc / content。

## 硬约束
- 禁止编造候选列表之外的 id。
- 禁止用自然语言解释选择理由；只输出 JSON。"#;

/// Built-in prompt seed of `assistant_match_topic`.
pub const MATCH_TOPIC_SEED: &'static str = r#"你是课题匹配与创建判定器。你的职责是判断当前用户输入应切换到已有课题，还是新建课题，并在新建时完成可执行的课题拆解。

## 判定准则
- 若用户输入与某个未完成课题的目标语义高度重合（用户在继续推进该课题），选择 switch 并返回该课题的 topic_id。
- 否则新建课题：从用户输入提炼清晰的课题名称、说明与可验收的子目标列表。
- 开放式提问、闲聊、意图模糊的输入也必须拆解出合理目标，不得以「用户没说清楚」为由留空。

## 输出契约
只返回一个 JSON 对象，必须包含顶层 action 字段：
- switch：{"action":"switch","topic_id":"topic_…"}；topic_id 必须来自输入列表中的未完成课题。
- create：{"action":"create","name":"短标题","description":"一句话说明","scope_in":[{"goal":"可执行子目标","done_contract":"可判定的完成标准"}]}。
  scope_in 为核心产出，至少 1 项；每项 goal 与 done_contract 均非空。goal 不空泛，done_contract 可验收（「列出 10 本书并附一句话理由」优于「推荐好书」）。

## 硬约束
- create 分支禁止省略 scope_in 或留空。
- 禁止编造不存在的 topic_id。
- 禁止返回散文替代 JSON。"#;

/// Built-in prompt seed of `assistant_complete_scope`.
pub const COMPLETE_SCOPE_SEED: &'static str = r#"你是课题完成度验收器。你的职责是依据本轮对话的模型输出、工具结果与用户输入，判定课题 scope 中各项是已完成还是需要阻塞等待用户。

## 判定准则
- 仅当该项的 done_contract 已被本轮出现的证据充分满足时，才标记为 completed。
- 仅当该项无法由 AI 单方推进、必须等待用户提供信息 / 确认 / 批准时，才标记为 blocked。
- 证据不足不勾选；「聊到相关」不构成完成；「进度慢」不构成阻塞。

## 输出契约
只返回一个 JSON 对象：
{"completed_item_ids":["scope_item_id_1"],"blocked_item_ids":["scope_item_id_2"]}
- 元素必须是输入 scope_in 中已有的 id，不得编造。
- 没有完成项时 completed_item_ids 为空数组；没有阻塞项时 blocked_item_ids 为空数组；两者可同时为空。
- completed 与 blocked 不得重叠。

## 硬约束
- 只负责勾选完成 / 阻塞状态，不修改 goal / done_contract 文本。
- 错勾会推进错误进度，错阻塞会暂停轮询；判定从严，不确定就保持未勾选。"#;

/// Built-in prompt seed of `assistant_score_feedback`.
pub const SCORE_FEEDBACK_SEED: &'static str = r#"你是介入效果评分器。你的职责是评估上一轮介入（角色 / 工具 / 输出）对当前课题推进的实际影响，并给出一个权重增量分。

## 判定准则
- 正分表示介入有帮助、推动了任务；负分表示有害、跑偏或产生反效果。
- 信息不足、缺乏明确评分依据时，输出最小正分 1，而不是 0 或散文说明。
- 分数会直接加到对应神经元及其相关边上，打错会污染网络权重，判定须谨慎。

## 输出契约
只返回一个 JSON 对象，且不得包含 JSON 之外的任何字符（无 markdown 围栏、无解释、无前后言）：
{"score": N}
- score 必须是整数，闭区间 -5..=5。
- score 不得为 0。

## 硬约束
- 无论输入是什么（提问、闲聊、空白、看似与评分无关），都必须输出一个合法 {"score": N}。
- 禁止自然语言回应、禁止反问、禁止要求补充信息、禁止输出数组或多字段、禁止输出 score 0。
- 若上一轮没有介入（本步骤被误调用），按信息不足处理，输出最小正分。"#;

/// Built-in prompt seed of `assistant_revise_topic`.
pub const REVISE_TOPIC_SEED: &'static str = r#"你是课题范围修订器。你的职责是判断当前课题的 scope 是否需要在推进过程中增删改，并输出结构化的变更 diff。

## 判定准则
- 优先响应用户的显式需求变更（补充需求、取消需求、调整验收标准）。
- AI 主动修订仅限 pending / blocked 项：推进中发现 done_contract 不可判定、目标已偏离、契约过时时可修订，但必须能说明理由。
- completed 项只有在本轮为用户对话（User 轮）且用户显式要求时，才允许编辑或删除。
- 无任何合理变更时，不要硬凑 diff。

## 输出契约
只返回一个 JSON 对象，最多包含四类字段：
{"add_items":[{"goal":"可执行子目标","done_contract":"可判定验收标准"}],"remove_item_ids":["scope_…"],"update_items":[{"id":"scope_…","goal":"新目标（可选）","done_contract":"新验收标准（可选）"}],"reason":"变更理由（必填且非空）"}
- add_items 新增为 pending 项，每项 goal 与 done_contract 均非空，缺一即整项跳过。
- remove_item_ids / update_items 的 id 必须来自输入 scope_in 中已有的项。
- update_items 至少携带一个非空字段；同时为空视为非法，跳过该项。
- reason 必填且非空，变更必须能溯源到本轮输入；空洞理由视为无效，跳过本轮全部变更。

## 硬约束
- 禁止编造不存在的 id；禁止省略 reason 或写空泛理由。
- 不管理 completed / blocked 状态（那是 complete_scope 的职责），只增删改条目与文本。
- 编辑 completed 项会被系统重置为 pending；删除已完成项仅在用户明确要求时进行。"#;

/// The built-in prompt seed of `system_type`, if it has one.
pub open spec fn seed_spec(system_type: Seq<char>) -> Option<Seq<char>> {
    if system_type == "assistant_select_neuron"@ {
        Some(SELECT_NEURON_SEED@)
    } else if system_type == "assistant_match_topic"@ {
        Some(MATCH_TOPIC_SEED@)
    } else if system_type == "assistant_complete_scope"@ {
        Some(COMPLETE_SCOPE_SEED@)
    } else if system_type == "assistant_score_feedback"@ {
        Some(SCORE_FEEDBACK_SEED@)
    } else if system_type == "assistant_revise_topic"@ {
        Some(REVISE_TOPIC_SEED@)
    } else {
        None
    }
}

/// The built-in prompt seed of `system_type`, if it has one.
pub fn seed_prompt(system_type: &str) -> (r: Option<&'static str>)
    ensures
        match r {
            Some(p) => seed_spec(system_type@) == Some(p@),
            None => seed_spec(system_type@) is None,
        },
{
    if str_eq(system_type, "assistant_select_neuron") {
        Some(SELECT_NEURON_SEED)
    } else if str_eq(system_type, "assistant_match_topic") {
        Some(MATCH_TOPIC_SEED)
    } else if str_eq(system_type, "assistant_complete_scope") {
        Some(COMPLETE_SCOPE_SEED)
    } else if str_eq(system_type, "assistant_score_feedback") {
        Some(SCORE_FEEDBACK_SEED)
    } else if str_eq(system_type, "assistant_revise_topic") {
        Some(REVISE_TOPIC_SEED)
    } else {
        None
    }
}
/// The neuron settings of the configuration file.
#[derive(Debug, Clone, PartialEq, Eq)]
pub struct NeuronConfigReader {
    /// `neurons.bootstrap.create_neuron_prompt`.
    pub create_neuron_prompt: Option<String>,
    /// `neurons.bootstrap.system_prompts`, by system type (distinct names).
    pub system_prompts: Option<Vec<NamedValue>>,
    /// `neuron.capacity`.
    pub capacity: Option<usize>,
    /// `neuron.recycle_interval_ms`.
    pub recycle_interval_ms: Option<u64>,
}

impl NeuronConfigReader {
    /// Settings read from a configuration file.
    pub fn new(
        create_neuron_prompt: Option<String>,
        system_prompts: Option<Vec<NamedValue>>,
        capacity: Option<usize>,
        recycle_interval_ms: Option<u64>,
    ) -> (r: NeuronConfigReader)
        ensures
            r.create_neuron_prompt == create_neuron_prompt,
            r.system_prompts == system_prompts,
            r.capacity == capacity,
            r.recycle_interval_ms == recycle_interval_ms,
    {
        NeuronConfigReader { create_neuron_prompt, system_prompts, capacity, recycle_interval_ms }
    }

    /// The creator prompt: the configured one when not blank, else the built-in seed.
    pub fn create_neuron_prompt(&self) -> (r: String)
        ensures
            r@ == match self.create_neuron_prompt {
                Some(p) => if is_blank(p@) {
                    DEFAULT_CREATE_NEURON_PROMPT@
                } else {
                    p@
                },
                None => DEFAULT_CREATE_NEURON_PROMPT@,
            },
    {
        match &self.create_neuron_prompt {
            Some(p) => if str_is_blank(p.as_str()) {
                owned(DEFAULT_CREATE_NEURON_PROMPT)
            } else {
                p.clone()
            },
            None => owned(DEFAULT_CREATE_NEURON_PROMPT),
        }
    }

    /// The system prompt of `system_type`: a non-blank configured override, else the
    /// built-in seed, else none (the caller then generates one).
    pub fn system_prompt_for(&self, system_type: &str) -> (r: Option<String>)
        ensures
            ({
                let o = match self.system_prompts {
                    Some(v) => named(v@, system_type@),
                    None => None,
                };
                if o is Some && !is_blank(o.unwrap()) {
                    r matches Some(p) && p@ == o.unwrap()
                } else {
                    match seed_spec(system_type@) {
                        Some(s) => r matches Some(p) && p@ == s,
                        None => r is None,
                    }
                }
            }),
    {
        if let Some(v) = &self.system_prompts {
            if let Some(p) = value_named(v, system_type) {
                if !str_is_blank(p) {
                    return Some(owned(p));
                }
            }
        }
        match seed_prompt(system_type) {
            Some(s) => Some(owned(s)),
            None => None,
        }
    }

    /// Cap on active neurons: the configured one, else 300.
    pub fn capacity(&self) -> (r: usize)
        ensures
            r == match self.capacity {
                Some(c) => c,
                None => DEFAULT_NEURON_CAPACITY,
            },
    {
        match self.capacity {
            Some(c) => c,
            None => DEFAULT_NEURON_CAPACITY,
        }
    }

    /// Recycle period in milliseconds: the configured one, else one hour.
    pub fn recycle_interval_ms(&self) -> (r: u64)
        ensures
            r == match self.recycle_interval_ms {
                Some(c) => c,
                None => DEFAULT_NEURON_RECYCLE_INTERVAL_MS,
            },
    {
        match self.recycle_interval_ms {
            Some(c) => c,
            None => DEFAULT_NEURON_RECYCLE_INTERVAL_MS,
        }
    }
}

/// The contract section of a judgement system type, if it is one: the merged judgements
/// and, for backfill, the four retired ones.
pub open spec fn judgement_insert(system_type: Seq<char>) -> Option<Seq<char>> {
    if system_type == "assistant_user_round_judgement"@ {
        Some("assistant.user_round_judgement"@)
    } else if system_type == "assistant_round_review"@ {
        Some("assistant.round_review"@)
    } else if system_type == "assistant_match_topic"@ {
        Some("assistant.match_topic"@)
    } else if system_type == "assistant_score_feedback"@ {
        Some("assistant.score_feedback"@)
    } else if system_type == "assistant_complete_scope"@ {
        Some("assistant.complete_scope"@)
    } else if system_type == "assistant_revise_topic"@ {
        Some("assistant.revise_topic"@)
    } else {
        None
    }
}

/// Default behavior of a judgement system neuron: its own fixed content, no tools, and its
/// contract section. Other system types have none.
pub fn default_behavior_for_system_type(system_type: &str) -> (r: Option<SessionBehavior>)
    ensures
        match judgement_insert(system_type@) {
            Some(i) => r matches Some(b) && b.selection == SelectionPolicy::Fixed && b.tools
                == ToolPolicy::NoTools && (b.insert_id matches Some(id) && id@ == i),
            None => r is None,
        },
{
    let insert: Option<&str> = if str_eq(system_type, "assistant_user_round_judgement") {
        Some("assistant.user_round_judgement")
    } else if str_eq(system_type, "assistant_round_review") {
        Some("assistant.round_review")
    } else if str_eq(system_type, "assistant_match_topic") {
        Some("assistant.match_topic")
    } else if str_eq(system_type, "assistant_score_feedback") {
        Some("assistant.score_feedback")
    } else if str_eq(system_type, "assistant_complete_scope") {
        Some("assistant.complete_scope")
    } else if str_eq(system_type, "assistant_revise_topic") {
        Some("assistant.revise_topic")
    } else {
        None
    };
    match insert {
        Some(id) => Some(
            SessionBehavior {
                selection: SelectionPolicy::Fixed,
                tools: ToolPolicy::NoTools,
                insert_id: Some(owned(id)),
            },
        ),
        None => None,
    }
}

/// The system types whose prompts a rebootstrap rebuilds: the selector and the two merged
/// judgements (not the creator, and not the retired judgements).
pub open spec fn rebootstrap_spec() -> Seq<Seq<char>> {
    seq![ASSISTANT_SELECT_NEURON@, "assistant_user_round_judgement"@, "assistant_round_review"@]
}

/// The system types a rebootstrap rebuilds (see [`rebootstrap_spec`]).
pub fn rebootstrap_system_types() -> (r: Vec<&'static str>)
    ensures
        r@.len() == 3,
        forall|i: int| 0 <= i < 3 ==> (#[trigger] r@[i])@ == rebootstrap_spec()[i],
{
    let mut v: Vec<&'static str> = Vec::new();
    v.push(ASSISTANT_SELECT_NEURON);
    v.push("assistant_user_round_judgement");
    v.push("assistant_round_review");
    v
}

} // verus!
