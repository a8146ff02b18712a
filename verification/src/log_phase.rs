//! Registry of log phases: the single source of the `phase` values written to the logs.
//!
//! Each phase has a value (the string logged), a panel group and a label. The developer
//! log panel lists [`all_phases`]; a new phase gets a constant here and a row in the table.

use vstd::prelude::*;

verus! {

/// One registered phase: the logged value, its panel group and its label.
#[derive(Debug, Clone, Copy, PartialEq, Eq)]
pub struct PhaseInfo {
    pub value: &'static str,
    pub group: &'static str,
    pub label: &'static str,
}


pub const PHASE_HOOK_USER_ROUND_JUDGEMENT: &'static str = "user_round_judgement_hook";
pub const PHASE_HOOK_ROUND_REVIEW: &'static str = "round_review_hook";
pub const PHASE_HOOK_REVISE_TOPIC: &'static str = "revise_topic_hook";
pub const PHASE_HOOK_SCORE_FEEDBACK: &'static str = "score_feedback_hook";
pub const PHASE_HOOK_COMPLETE_SCOPE: &'static str = "complete_scope_hook";
pub const PHASE_HOOK_MATCH_TOPIC: &'static str = "match_topic_hook";
pub const PHASE_HOOK_COMPACTION: &'static str = "compaction_hook";
pub const PHASE_HOOK_SELECT_NEURON: &'static str = "select_neuron_hook";
pub const PHASE_HOOK_ASSISTANT: &'static str = "assistant_hook";

pub const PHASE_RUN_ROUND: &'static str = "run_round";
pub const PHASE_RUN_ROUND_STREAM: &'static str = "run_round_stream";
pub const PHASE_ROUND_EXECUTE: &'static str = "round_execute";
pub const PHASE_RESOLVE: &'static str = "resolve";
pub const PHASE_RESOLVE_ROLE: &'static str = "resolve_role";
pub const PHASE_TOOL_AUTHORIZATION: &'static str = "tool_authorization";
pub const PHASE_PREEMPT_WAIT: &'static str = "preempt_wait";
pub const PHASE_APPLY_TOOLS: &'static str = "apply_tools";

pub const PHASE_NEURON_BOOTSTRAP_NEURONS: &'static str = "bootstrap_neurons";
pub const PHASE_NEURON_BOOTSTRAP: &'static str = "bootstrap";
pub const PHASE_NEURON_REBOOTSTRAP: &'static str = "rebootstrap";
pub const PHASE_NEURON_ENSURE_SYSTEM: &'static str = "ensure_system_neuron";
pub const PHASE_NEURON_ENSURE_SESSION: &'static str = "ensure_session_neuron";
pub const PHASE_NEURON_ENSURE_CREATOR: &'static str = "ensure_creator";
pub const PHASE_NEURON_EVOLVE_CREATOR: &'static str = "maybe_evolve_creator_variants";
pub const PHASE_NEURON_ROLLBACK_VARIANT: &'static str = "rollback_variant_if_regressed";
pub const PHASE_NEURON_REWRITE_VARIANT: &'static str = "rewrite_variant";
pub const PHASE_NEURON_RECYCLE: &'static str = "recycle_if_over_capacity";
pub const PHASE_NEURON_RECYCLE_RUNTIME: &'static str = "neuron_recycle_runtime";

pub const PHASE_SELECT_CANDIDATES: &'static str = "select_candidates";
pub const PHASE_SELECT_CANDIDATES_DETAIL: &'static str = "select_candidates.detail";
pub const PHASE_SELECT_ASSISTANT_CANDIDATES: &'static str = "select_assistant_candidates";
pub const PHASE_SELECT_ONE: &'static str = "select_one";
pub const PHASE_SELECT_ONE_LINK_BACK: &'static str = "select_one.link_back";
pub const PHASE_SELECT_NEURON_MODEL_INPUT: &'static str = "select_neuron.model_input";
pub const PHASE_SELECT_NEURON_MODEL_INPUT_FULL: &'static str = "select_neuron.model_input.full";
pub const PHASE_SELECT_NEURON_MODEL_OUTPUT: &'static str = "select_neuron.model_output";
pub const PHASE_SELECT_NEURON_MODEL_DECISION: &'static str = "select_neuron.model_decision";
pub const PHASE_SELECT_ROLE: &'static str = "select_role";
pub const PHASE_FILL_CANDIDATES_BATCH: &'static str = "fill_candidates_batch";
pub const PHASE_GENERATE_DRAFTS: &'static str = "generate_drafts";

pub const PHASE_ASSISTANT_POLL_HANDLER: &'static str = "assistant_poll_handler";
pub const PHASE_ASSISTANT_STEP: &'static str = "assistant_step";
pub const PHASE_ASSISTANT_POLLER: &'static str = "assistant_poller";
pub const PHASE_ASSISTANT_CONVERSE: &'static str = "assistant_converse";
pub const PHASE_ASSISTANT_CONVERSE_STREAM: &'static str = "assistant_converse_stream";
pub const PHASE_ASSISTANT_ERROR_RESIDENCY: &'static str = "error_residency";
pub const PHASE_POLLER_TICK: &'static str = "poller_tick";
pub const PHASE_POLLER_RUNTIME: &'static str = "poller_runtime";
pub const PHASE_POLLER_CONFIG: &'static str = "poller_config";

pub const PHASE_SEND_MODEL_MESSAGE: &'static str = "send_model_message";
pub const PHASE_SEND_MODEL_MESSAGE_STREAM: &'static str = "send_model_message_stream";
pub const PHASE_CALL_MODEL: &'static str = "call_model";
pub const PHASE_CALL_JUDGEMENT: &'static str = "call_judgement";
pub const PHASE_RUN_JUDGEMENT_ROUND: &'static str = "run_judgement_round";
pub const PHASE_PARSE_TOOL_CALL: &'static str = "parse_tool_call";
pub const PHASE_LLM_REQUEST_OUT: &'static str = "llm_request_out";
pub const PHASE_LLM_RESPONSE_IN: &'static str = "llm_response_in";
pub const PHASE_LLM_CALL_PERF: &'static str = "llm_call_perf";

pub const PHASE_APPLY_SCORE_FEEDBACK: &'static str = "apply_score_feedback";
pub const PHASE_MANUAL_SCORE_FEEDBACK: &'static str = "manual_score_feedback";
pub const PHASE_SCORE_FEEDBACK_COMMAND: &'static str = "score_feedback_command";

pub const PHASE_SESSION_COORDINATOR: &'static str = "session_coordinator";
pub const PHASE_STOP_SESSION: &'static str = "stop_session";
pub const PHASE_START_SESSION: &'static str = "start_session";
pub const PHASE_TOOL_CONFIG: &'static str = "tool_config";

/// Number of registered phases.
pub const PHASE_COUNT: usize = 65;

/// Row `i` of the registry table: `(value, group, label)`.
pub open spec fn phase_row(i: int) -> (Seq<char>, Seq<char>, Seq<char>) {
    if i == 0 {
        (PHASE_HOOK_USER_ROUND_JUDGEMENT@, "Hook 执行"@, "用户轮合并裁决"@)
    } else if i == 1 {
        (PHASE_HOOK_ROUND_REVIEW@, "Hook 执行"@, "收尾轮合并复盘"@)
    } else if i == 2 {
        (PHASE_HOOK_REVISE_TOPIC@, "Hook 执行"@, "范围修订"@)
    } else if i == 3 {
        (PHASE_HOOK_SCORE_FEEDBACK@, "Hook 执行"@, "评分反馈"@)
    } else if i == 4 {
        (PHASE_HOOK_COMPLETE_SCOPE@, "Hook 执行"@, "收尾验收"@)
    } else if i == 5 {
        (PHASE_HOOK_MATCH_TOPIC@, "Hook 执行"@, "话题匹配"@)
    } else if i == 6 {
        (PHASE_HOOK_COMPACTION@, "Hook 执行"@, "上下文压缩"@)
    } else if i == 7 {
        (PHASE_HOOK_SELECT_NEURON@, "Hook 执行"@, "神经元选型"@)
    } else if i == 8 {
        (PHASE_HOOK_ASSISTANT@, "Hook 执行"@, "助手钩子"@)
    } else if i == 9 {
        (PHASE_RUN_ROUND@, "轮次执行"@, "执行轮次"@)
    } else if i == 10 {
        (PHASE_RUN_ROUND_STREAM@, "轮次执行"@, "执行轮次(流式)"@)
    } else if i == 11 {
        (PHASE_ROUND_EXECUTE@, "轮次执行"@, "轮次执行器"@)
    } else if i == 12 {
        (PHASE_RESOLVE@, "轮次执行"@, "角色解析"@)
    } else if i == 13 {
        (PHASE_RESOLVE_ROLE@, "轮次执行"@, "角色解析(细)"@)
    } else if i == 14 {
        (PHASE_TOOL_AUTHORIZATION@, "轮次执行"@, "工具授权"@)
    } else if i == 15 {
        (PHASE_PREEMPT_WAIT@, "轮次执行"@, "抢占等待"@)
    } else if i == 16 {
        (PHASE_APPLY_TOOLS@, "轮次执行"@, "应用工具"@)
    } else if i == 17 {
        (PHASE_NEURON_BOOTSTRAP_NEURONS@, "神经元生命周期"@, "神经源自举"@)
    } else if i == 18 {
        (PHASE_NEURON_BOOTSTRAP@, "神经元生命周期"@, "初始化"@)
    } else if i == 19 {
        (PHASE_NEURON_REBOOTSTRAP@, "神经元生命周期"@, "重新初始化"@)
    } else if i == 20 {
        (PHASE_NEURON_ENSURE_SYSTEM@, "神经元生命周期"@, "确保系统神经元"@)
    } else if i == 21 {
        (PHASE_NEURON_ENSURE_SESSION@, "神经元生命周期"@, "确保会话神经元"@)
    } else if i == 22 {
        (PHASE_NEURON_ENSURE_CREATOR@, "神经元生命周期"@, "确保创作者"@)
    } else if i == 23 {
        (PHASE_NEURON_EVOLVE_CREATOR@, "神经元生命周期"@, "演化创作者变体"@)
    } else if i == 24 {
        (PHASE_NEURON_ROLLBACK_VARIANT@, "神经元生命周期"@, "回滚变体"@)
    } else if i == 25 {
        (PHASE_NEURON_REWRITE_VARIANT@, "神经元生命周期"@, "重写变体"@)
    } else if i == 26 {
        (PHASE_NEURON_RECYCLE@, "神经元生命周期"@, "回收(容量)"@)
    } else if i == 27 {
        (PHASE_NEURON_RECYCLE_RUNTIME@, "神经元生命周期"@, "回收(runtime)"@)
    } else if i == 28 {
        (PHASE_SELECT_CANDIDATES@, "神经元选择"@, "筛选候选"@)
    } else if i == 29 {
        (PHASE_SELECT_CANDIDATES_DETAIL@, "神经元选择"@, "筛选候选明细"@)
    } else if i == 30 {
        (PHASE_SELECT_ASSISTANT_CANDIDATES@, "神经元选择"@, "筛选助手候选"@)
    } else if i == 31 {
        (PHASE_SELECT_ONE@, "神经元选择"@, "选中单个"@)
    } else if i == 32 {
        (PHASE_SELECT_ONE_LINK_BACK@, "神经元选择"@, "选中回链"@)
    } else if i == 33 {
        (PHASE_SELECT_NEURON_MODEL_INPUT@, "神经元选择"@, "选型模型输入"@)
    } else if i == 34 {
        (PHASE_SELECT_NEURON_MODEL_INPUT_FULL@, "神经元选择"@, "选型模型输入(全)"@)
    } else if i == 35 {
        (PHASE_SELECT_NEURON_MODEL_OUTPUT@, "神经元选择"@, "选型模型输出"@)
    } else if i == 36 {
        (PHASE_SELECT_NEURON_MODEL_DECISION@, "神经元选择"@, "选型模型决策"@)
    } else if i == 37 {
        (PHASE_SELECT_ROLE@, "神经元选择"@, "角色选择"@)
    } else if i == 38 {
        (PHASE_FILL_CANDIDATES_BATCH@, "神经元选择"@, "批量补给候选"@)
    } else if i == 39 {
        (PHASE_GENERATE_DRAFTS@, "神经元选择"@, "生成草稿"@)
    } else if i == 40 {
        (PHASE_ASSISTANT_POLL_HANDLER@, "助手会话"@, "轮询处理器"@)
    } else if i == 41 {
        (PHASE_ASSISTANT_STEP@, "助手会话"@, "会话步进"@)
    } else if i == 42 {
        (PHASE_ASSISTANT_POLLER@, "助手会话"@, "轮询器"@)
    } else if i == 43 {
        (PHASE_ASSISTANT_CONVERSE@, "助手会话"@, "会话对话"@)
    } else if i == 44 {
        (PHASE_ASSISTANT_CONVERSE_STREAM@, "助手会话"@, "会话对话(流式)"@)
    } else if i == 45 {
        (PHASE_ASSISTANT_ERROR_RESIDENCY@, "助手会话"@, "错误驻留"@)
    } else if i == 46 {
        (PHASE_POLLER_TICK@, "助手会话"@, "轮询心跳"@)
    } else if i == 47 {
        (PHASE_POLLER_RUNTIME@, "助手会话"@, "轮询运行时"@)
    } else if i == 48 {
        (PHASE_POLLER_CONFIG@, "助手会话"@, "轮询配置"@)
    } else if i == 49 {
        (PHASE_SEND_MODEL_MESSAGE@, "模型调用"@, "发送模型消息"@)
    } else if i == 50 {
        (PHASE_SEND_MODEL_MESSAGE_STREAM@, "模型调用"@, "发送模型消息(流式)"@)
    } else if i == 51 {
        (PHASE_CALL_MODEL@, "模型调用"@, "调用模型"@)
    } else if i == 52 {
        (PHASE_CALL_JUDGEMENT@, "模型调用"@, "调用裁决"@)
    } else if i == 53 {
        (PHASE_RUN_JUDGEMENT_ROUND@, "模型调用"@, "运行裁决轮"@)
    } else if i == 54 {
        (PHASE_PARSE_TOOL_CALL@, "模型调用"@, "解析工具调用"@)
    } else if i == 55 {
        (PHASE_LLM_REQUEST_OUT@, "模型调用"@, "模型请求体"@)
    } else if i == 56 {
        (PHASE_LLM_RESPONSE_IN@, "模型调用"@, "模型响应体"@)
    } else if i == 57 {
        (PHASE_LLM_CALL_PERF@, "模型调用"@, "模型调用耗时"@)
    } else if i == 58 {
        (PHASE_APPLY_SCORE_FEEDBACK@, "评分反馈"@, "应用评分反馈"@)
    } else if i == 59 {
        (PHASE_MANUAL_SCORE_FEEDBACK@, "评分反馈"@, "手动评分反馈"@)
    } else if i == 60 {
        (PHASE_SCORE_FEEDBACK_COMMAND@, "评分反馈"@, "评分反馈命令"@)
    } else if i == 61 {
        (PHASE_SESSION_COORDINATOR@, "会话管理"@, "会话协调器"@)
    } else if i == 62 {
        (PHASE_STOP_SESSION@, "会话管理"@, "停止会话"@)
    } else if i == 63 {
        (PHASE_START_SESSION@, "会话管理"@, "启动会话"@)
    } else {
        (PHASE_TOOL_CONFIG@, "会话管理"@, "工具配置"@)
    }
}

/// The fields of `p` as a row.
pub open spec fn row_of(p: PhaseInfo) -> (Seq<char>, Seq<char>, Seq<char>) {
    (p.value@, p.group@, p.label@)
}

fn phase_at(i: usize) -> (p: PhaseInfo)
    requires
        i < 65,
    ensures
        row_of(p) == phase_row(i as int),
{
    if i == 0 {
        PhaseInfo { value: PHASE_HOOK_USER_ROUND_JUDGEMENT, group: "Hook 执行", label: "用户轮合并裁决" }
    } else if i == 1 {
        PhaseInfo { value: PHASE_HOOK_ROUND_REVIEW, group: "Hook 执行", label: "收尾轮合并复盘" }
    } else if i == 2 {
        PhaseInfo { value: PHASE_HOOK_REVISE_TOPIC, group: "Hook 执行", label: "范围修订" }
    } else if i == 3 {
        PhaseInfo { value: PHASE_HOOK_SCORE_FEEDBACK, group: "Hook 执行", label: "评分反馈" }
    } else if i == 4 {
        PhaseInfo { value: PHASE_HOOK_COMPLETE_SCOPE, group: "Hook 执行", label: "收尾验收" }
    } else if i == 5 {
        PhaseInfo { value: PHASE_HOOK_MATCH_TOPIC, group: "Hook 执行", label: "话题匹配" }
    } else if i == 6 {
        PhaseInfo { value: PHASE_HOOK_COMPACTION, group: "Hook 执行", label: "上下文压缩" }
    } else if i == 7 {
        PhaseInfo { value: PHASE_HOOK_SELECT_NEURON, group: "Hook 执行", label: "神经元选型" }
    } else if i == 8 {
        PhaseInfo { value: PHASE_HOOK_ASSISTANT, group: "Hook 执行", label: "助手钩子" }
    } else if i == 9 {
        PhaseInfo { value: PHASE_RUN_ROUND, group: "轮次执行", label: "执行轮次" }
    } else if i == 10 {
        PhaseInfo { value: PHASE_RUN_ROUND_STREAM, group: "轮次执行", label: "执行轮次(流式)" }
    } else if i == 11 {
        PhaseInfo { value: PHASE_ROUND_EXECUTE, group: "轮次执行", label: "轮次执行器" }
    } else if i == 12 {
        PhaseInfo { value: PHASE_RESOLVE, group: "轮次执行", label: "角色解析" }
    } else if i == 13 {
        PhaseInfo { value: PHASE_RESOLVE_ROLE, group: "轮次执行", label: "角色解析(细)" }
    } else if i == 14 {
        PhaseInfo { value: PHASE_TOOL_AUTHORIZATION, group: "轮次执行", label: "工具授权" }
    } else if i == 15 {
        PhaseInfo { value: PHASE_PREEMPT_WAIT, group: "轮次执行", label: "抢占等待" }
    } else if i == 16 {
        PhaseInfo { value: PHASE_APPLY_TOOLS, group: "轮次执行", label: "应用工具" }
    } else if i == 17 {
        PhaseInfo { value: PHASE_NEURON_BOOTSTRAP_NEURONS, group: "神经元生命周期", label: "神经源自举" }
    } else if i == 18 {
        PhaseInfo { value: PHASE_NEURON_BOOTSTRAP, group: "神经元生命周期", label: "初始化" }
    } else if i == 19 {
        PhaseInfo { value: PHASE_NEURON_REBOOTSTRAP, group: "神经元生命周期", label: "重新初始化" }
    } else if i == 20 {
        PhaseInfo { value: PHASE_NEURON_ENSURE_SYSTEM, group: "神经元生命周期", label: "确保系统神经元" }
    } else if i == 21 {
        PhaseInfo { value: PHASE_NEURON_ENSURE_SESSION, group: "神经元生命周期", label: "确保会话神经元" }
    } else if i == 22 {
        PhaseInfo { value: PHASE_NEURON_ENSURE_CREATOR, group: "神经元生命周期", label: "确保创作者" }
    } else if i == 23 {
        PhaseInfo { value: PHASE_NEURON_EVOLVE_CREATOR, group: "神经元生命周期", label: "演化创作者变体" }
    } else if i == 24 {
        PhaseInfo { value: PHASE_NEURON_ROLLBACK_VARIANT, group: "神经元生命周期", label: "回滚变体" }
    } else if i == 25 {
        PhaseInfo { value: PHASE_NEURON_REWRITE_VARIANT, group: "神经元生命周期", label: "重写变体" }
    } else if i == 26 {
        PhaseInfo { value: PHASE_NEURON_RECYCLE, group: "神经元生命周期", label: "回收(容量)" }
    } else if i == 27 {
        PhaseInfo { value: PHASE_NEURON_RECYCLE_RUNTIME, group: "神经元生命周期", label: "回收(runtime)" }
    } else if i == 28 {
        PhaseInfo { value: PHASE_SELECT_CANDIDATES, group: "神经元选择", label: "筛选候选" }
    } else if i == 29 {
        PhaseInfo { value: PHASE_SELECT_CANDIDATES_DETAIL, group: "神经元选择", label: "筛选候选明细" }
    } else if i == 30 {
        PhaseInfo { value: PHASE_SELECT_ASSISTANT_CANDIDATES, group: "神经元选择", label: "筛选助手候选" }
    } else if i == 31 {
        PhaseInfo { value: PHASE_SELECT_ONE, group: "神经元选择", label: "选中单个" }
    } else if i == 32 {
        PhaseInfo { value: PHASE_SELECT_ONE_LINK_BACK, group: "神经元选择", label: "选中回链" }
    } else if i == 33 {
        PhaseInfo { value: PHASE_SELECT_NEURON_MODEL_INPUT, group: "神经元选择", label: "选型模型输入" }
    } else if i == 34 {
        PhaseInfo { value: PHASE_SELECT_NEURON_MODEL_INPUT_FULL, group: "神经元选择", label: "选型模型输入(全)" }
    } else if i == 35 {
        PhaseInfo { value: PHASE_SELECT_NEURON_MODEL_OUTPUT, group: "神经元选择", label: "选型模型输出" }
    } else if i == 36 {
        PhaseInfo { value: PHASE_SELECT_NEURON_MODEL_DECISION, group: "神经元选择", label: "选型模型决策" }
    } else if i == 37 {
        PhaseInfo { value: PHASE_SELECT_ROLE, group: "神经元选择", label: "角色选择" }
    } else if i == 38 {
        PhaseInfo { value: PHASE_FILL_CANDIDATES_BATCH, group: "神经元选择", label: "批量补给候选" }
    } else if i == 39 {
        PhaseInfo { value: PHASE_GENERATE_DRAFTS, group: "神经元选择", label: "生成草稿" }
    } else if i == 40 {
        PhaseInfo { value: PHASE_ASSISTANT_POLL_HANDLER, group: "助手会话", label: "轮询处理器" }
    } else if i == 41 {
        PhaseInfo { value: PHASE_ASSISTANT_STEP, group: "助手会话", label: "会话步进" }
    } else if i == 42 {
        PhaseInfo { value: PHASE_ASSISTANT_POLLER, group: "助手会话", label: "轮询器" }
    } else if i == 43 {
        PhaseInfo { value: PHASE_ASSISTANT_CONVERSE, group: "助手会话", label: "会话对话" }
    } else if i == 44 {
        PhaseInfo { value: PHASE_ASSISTANT_CONVERSE_STREAM, group: "助手会话", label: "会话对话(流式)" }
    } else if i == 45 {
        PhaseInfo { value: PHASE_ASSISTANT_ERROR_RESIDENCY, group: "助手会话", label: "错误驻留" }
    } else if i == 46 {
        PhaseInfo { value: PHASE_POLLER_TICK, group: "助手会话", label: "轮询心跳" }
    } else if i == 47 {
        PhaseInfo { value: PHASE_POLLER_RUNTIME, group: "助手会话", label: "轮询运行时" }
    } else if i == 48 {
        PhaseInfo { value: PHASE_POLLER_CONFIG, group: "助手会话", label: "轮询配置" }
    } else if i == 49 {
        PhaseInfo { value: PHASE_SEND_MODEL_MESSAGE, group: "模型调用", label: "发送模型消息" }
    } else if i == 50 {
        PhaseInfo { value: PHASE_SEND_MODEL_MESSAGE_STREAM, group: "模型调用", label: "发送模型消息(流式)" }
    } else if i == 51 {
        PhaseInfo { value: PHASE_CALL_MODEL, group: "模型调用", label: "调用模型" }
    } else if i == 52 {
        PhaseInfo { value: PHASE_CALL_JUDGEMENT, group: "模型调用", label: "调用裁决" }
    } else if i == 53 {
        PhaseInfo { value: PHASE_RUN_JUDGEMENT_ROUND, group: "模型调用", label: "运行裁决轮" }
    } else if i == 54 {
        PhaseInfo { value: PHASE_PARSE_TOOL_CALL, group: "模型调用", label: "解析工具调用" }
    } else if i == 55 {
        PhaseInfo { value: PHASE_LLM_REQUEST_OUT, group: "模型调用", label: "模型请求体" }
    } else if i == 56 {
        PhaseInfo { value: PHASE_LLM_RESPONSE_IN, group: "模型调用", label: "模型响应体" }
    } else if i == 57 {
        PhaseInfo { value: PHASE_LLM_CALL_PERF, group: "模型调用", label: "模型调用耗时" }
    } else if i == 58 {
        PhaseInfo { value: PHASE_APPLY_SCORE_FEEDBACK, group: "评分反馈", label: "应用评分反馈" }
    } else if i == 59 {
        PhaseInfo { value: PHASE_MANUAL_SCORE_FEEDBACK, group: "评分反馈", label: "手动评分反馈" }
    } else if i == 60 {
        PhaseInfo { value: PHASE_SCORE_FEEDBACK_COMMAND, group: "评分反馈", label: "评分反馈命令" }
    } else if i == 61 {
        PhaseInfo { value: PHASE_SESSION_COORDINATOR, group: "会话管理", label: "会话协调器" }
    } else if i == 62 {
        PhaseInfo { value: PHASE_STOP_SESSION, group: "会话管理", label: "停止会话" }
    } else if i == 63 {
        PhaseInfo { value: PHASE_START_SESSION, group: "会话管理", label: "启动会话" }
    } else {
        PhaseInfo { value: PHASE_TOOL_CONFIG, group: "会话管理", label: "工具配置" }
    }
}

/// Every registered phase, in table order (the panel's drop-down list).
pub fn all_phases() -> (r: Vec<PhaseInfo>)
    ensures
        r@.len() == PHASE_COUNT,
        forall|i: int| 0 <= i < r@.len() ==> row_of(#[trigger] r@[i]) == phase_row(i),
{
    let mut v: Vec<PhaseInfo> = Vec::new();
    for i in 0..PHASE_COUNT
        invariant
            v@.len() == i,
            forall|j: int| 0 <= j < i ==> row_of(#[trigger] v@[j]) == phase_row(j),
    {
        v.push(phase_at(i));
    }
    v
}

/// Length and two characters of `v`: enough to tell the registered values apart.
spec fn fingerprint(v: Seq<char>) -> (nat, char, char) {
    (v.len(), v[0], v[10])
}

/// Position of the registered value with the fingerprint of `v` (`-1` when none).
spec fn phase_index(v: Seq<char>) -> int {
    if fingerprint(v) == fingerprint(PHASE_HOOK_USER_ROUND_JUDGEMENT@) {
        0
    } else if fingerprint(v) == fingerprint(PHASE_HOOK_ROUND_REVIEW@) {
        1
    } else if fingerprint(v) == fingerprint(PHASE_HOOK_REVISE_TOPIC@) {
        2
    } else if fingerprint(v) == fingerprint(PHASE_HOOK_SCORE_FEEDBACK@) {
        3
    } else if fingerprint(v) == fingerprint(PHASE_HOOK_COMPLETE_SCOPE@) {
        4
    } else if fingerprint(v) == fingerprint(PHASE_HOOK_MATCH_TOPIC@) {
        5
    } else if fingerprint(v) == fingerprint(PHASE_HOOK_COMPACTION@) {
        6
    } else if fingerprint(v) == fingerprint(PHASE_HOOK_SELECT_NEURON@) {
        7
    } else if fingerprint(v) == fingerprint(PHASE_HOOK_ASSISTANT@) {
        8
    } else if fingerprint(v) == fingerprint(PHASE_RUN_ROUND@) {
        9
    } else if fingerprint(v) == fingerprint(PHASE_RUN_ROUND_STREAM@) {
        10
    } else if fingerprint(v) == fingerprint(PHASE_ROUND_EXECUTE@) {
        11
    } else if fingerprint(v) == fingerprint(PHASE_RESOLVE@) {
        12
    } else if fingerprint(v) == fingerprint(PHASE_RESOLVE_ROLE@) {
        13
    } else if fingerprint(v) == fingerprint(PHASE_TOOL_AUTHORIZATION@) {
        14
    } else if fingerprint(v) == fingerprint(PHASE_PREEMPT_WAIT@) {
        15
    } else if fingerprint(v) == fingerprint(PHASE_APPLY_TOOLS@) {
        16
    } else if fingerprint(v) == fingerprint(PHASE_NEURON_BOOTSTRAP_NEURONS@) {
        17
    } else if fingerprint(v) == fingerprint(PHASE_NEURON_BOOTSTRAP@) {
        18
    } else if fingerprint(v) == fingerprint(PHASE_NEURON_REBOOTSTRAP@) {
        19
    } else if fingerprint(v) == fingerprint(PHASE_NEURON_ENSURE_SYSTEM@) {
        20
    } else if fingerprint(v) == fingerprint(PHASE_NEURON_ENSURE_SESSION@) {
        21
    } else if fingerprint(v) == fingerprint(PHASE_NEURON_ENSURE_CREATOR@) {
        22
    } else if fingerprint(v) == fingerprint(PHASE_NEURON_EVOLVE_CREATOR@) {
        23
    } else if fingerprint(v) == fingerprint(PHASE_NEURON_ROLLBACK_VARIANT@) {
        24
    } else if fingerprint(v) == fingerprint(PHASE_NEURON_REWRITE_VARIANT@) {
        25
    } else if fingerprint(v) == fingerprint(PHASE_NEURON_RECYCLE@) {
        26
    } else if fingerprint(v) == fingerprint(PHASE_NEURON_RECYCLE_RUNTIME@) {
        27
    } else if fingerprint(v) == fingerprint(PHASE_SELECT_CANDIDATES@) {
        28
    } else if fingerprint(v) == fingerprint(PHASE_SELECT_CANDIDATES_DETAIL@) {
        29
    } else if fingerprint(v) == fingerprint(PHASE_SELECT_ASSISTANT_CANDIDATES@) {
        30
    } else if fingerprint(v) == fingerprint(PHASE_SELECT_ONE@) {
        31
    } else if fingerprint(v) == fingerprint(PHASE_SELECT_ONE_LINK_BACK@) {
        32
    } else if fingerprint(v) == fingerprint(PHASE_SELECT_NEURON_MODEL_INPUT@) {
        33
    } else if fingerprint(v) == fingerprint(PHASE_SELECT_NEURON_MODEL_INPUT_FULL@) {
        34
    } else if fingerprint(v) == fingerprint(PHASE_SELECT_NEURON_MODEL_OUTPUT@) {
        35
    } else if fingerprint(v) == fingerprint(PHASE_SELECT_NEURON_MODEL_DECISION@) {
        36
    } else if fingerprint(v) == fingerprint(PHASE_SELECT_ROLE@) {
        37
    } else if fingerprint(v) == fingerprint(PHASE_FILL_CANDIDATES_BATCH@) {
        38
    } else if fingerprint(v) == fingerprint(PHASE_GENERATE_DRAFTS@) {
        39
    } else if fingerprint(v) == fingerprint(PHASE_ASSISTANT_POLL_HANDLER@) {
        40
    } else if fingerprint(v) == fingerprint(PHASE_ASSISTANT_STEP@) {
        41
    } else if fingerprint(v) == fingerprint(PHASE_ASSISTANT_POLLER@) {
        42
    } else if fingerprint(v) == fingerprint(PHASE_ASSISTANT_CONVERSE@) {
        43
    } else if fingerprint(v) == fingerprint(PHASE_ASSISTANT_CONVERSE_STREAM@) {
        44
    } else if fingerprint(v) == fingerprint(PHASE_ASSISTANT_ERROR_RESIDENCY@) {
        45
    } else if fingerprint(v) == fingerprint(PHASE_POLLER_TICK@) {
        46
    } else if fingerprint(v) == fingerprint(PHASE_POLLER_RUNTIME@) {
        47
    } else if fingerprint(v) == fingerprint(PHASE_POLLER_CONFIG@) {
        48
    } else if fingerprint(v) == fingerprint(PHASE_SEND_MODEL_MESSAGE@) {
        49
    } else if fingerprint(v) == fingerprint(PHASE_SEND_MODEL_MESSAGE_STREAM@) {
        50
    } else if fingerprint(v) == fingerprint(PHASE_CALL_MODEL@) {
        51
    } else if fingerprint(v) == fingerprint(PHASE_CALL_JUDGEMENT@) {
        52
    } else if fingerprint(v) == fingerprint(PHASE_RUN_JUDGEMENT_ROUND@) {
        53
    } else if fingerprint(v) == fingerprint(PHASE_PARSE_TOOL_CALL@) {
        54
    } else if fingerprint(v) == fingerprint(PHASE_LLM_REQUEST_OUT@) {
        55
    } else if fingerprint(v) == fingerprint(PHASE_LLM_RESPONSE_IN@) {
        56
    } else if fingerprint(v) == fingerprint(PHASE_LLM_CALL_PERF@) {
        57
    } else if fingerprint(v) == fingerprint(PHASE_APPLY_SCORE_FEEDBACK@) {
        58
    } else if fingerprint(v) == fingerprint(PHASE_MANUAL_SCORE_FEEDBACK@) {
        59
    } else if fingerprint(v) == fingerprint(PHASE_SCORE_FEEDBACK_COMMAND@) {
        60
    } else if fingerprint(v) == fingerprint(PHASE_SESSION_COORDINATOR@) {
        61
    } else if fingerprint(v) == fingerprint(PHASE_STOP_SESSION@) {
        62
    } else if fingerprint(v) == fingerprint(PHASE_START_SESSION@) {
        63
    } else if fingerprint(v) == fingerprint(PHASE_TOOL_CONFIG@) {
        64
    } else {
        -1
    }
}

proof fn lemma_index_of_rows_0_13(i: int)
    requires
        0 <= i < 13,
    ensures
        phase_index(phase_row(i).0) == i,
{
    reveal_strlit("user_round_judgement_hook");
    reveal_strlit("round_review_hook");
    reveal_strlit("revise_topic_hook");
    reveal_strlit("score_feedback_hook");
    reveal_strlit("complete_scope_hook");
    reveal_strlit("match_topic_hook");
    reveal_strlit("compaction_hook");
    reveal_strlit("select_neuron_hook");
    reveal_strlit("assistant_hook");
    reveal_strlit("run_round");
    reveal_strlit("run_round_stream");
    reveal_strlit("round_execute");
    reveal_strlit("resolve");
    if i == 0 {
    } else if i == 1 {
    } else if i == 2 {
    } else if i == 3 {
    } else if i == 4 {
    } else if i == 5 {
    } else if i == 6 {
    } else if i == 7 {
    } else if i == 8 {
    } else if i == 9 {
    } else if i == 10 {
    } else if i == 11 {
    } else if i == 12 {
    }
}

proof fn lemma_index_of_rows_13_26(i: int)
    requires
        13 <= i < 26,
    ensures
        phase_index(phase_row(i).0) == i,
{
    reveal_strlit("user_round_judgement_hook");
    reveal_strlit("round_review_hook");
    reveal_strlit("revise_topic_hook");
    reveal_strlit("score_feedback_hook");
    reveal_strlit("complete_scope_hook");
    reveal_strlit("match_topic_hook");
    reveal_strlit("compaction_hook");
    reveal_strlit("select_neuron_hook");
    reveal_strlit("assistant_hook");
    reveal_strlit("run_round");
    reveal_strlit("run_round_stream");
    reveal_strlit("round_execute");
    reveal_strlit("resolve");
    reveal_strlit("resolve_role");
    reveal_strlit("tool_authorization");
    reveal_strlit("preempt_wait");
    reveal_strlit("apply_tools");
    reveal_strlit("bootstrap_neurons");
    reveal_strlit("bootstrap");
    reveal_strlit("rebootstrap");
    reveal_strlit("ensure_system_neuron");
    reveal_strlit("ensure_session_neuron");
    reveal_strlit("ensure_creator");
    reveal_strlit("maybe_evolve_creator_variants");
    reveal_strlit("rollback_variant_if_regressed");
    reveal_strlit("rewrite_variant");
    if i == 13 {
    } else if i == 14 {
    } else if i == 15 {
    } else if i == 16 {
    } else if i == 17 {
    } else if i == 18 {
    } else if i == 19 {
    } else if i == 20 {
    } else if i == 21 {
    } else if i == 22 {
    } else if i == 23 {
    } else if i == 24 {
    } else if i == 25 {
    }
}

proof fn lemma_index_of_rows_26_39(i: int)
    requires
        26 <= i < 39,
    ensures
        phase_index(phase_row(i).0) == i,
{
    reveal_strlit("user_round_judgement_hook");
    reveal_strlit("round_review_hook");
    reveal_strlit("revise_topic_hook");
    reveal_strlit("score_feedback_hook");
    reveal_strlit("complete_scope_hook");
    reveal_strlit("match_topic_hook");
    reveal_strlit("compaction_hook");
    reveal_strlit("select_neuron_hook");
    reveal_strlit("assistant_hook");
    reveal_strlit("run_round");
    reveal_strlit("run_round_stream");
    reveal_strlit("round_execute");
    reveal_strlit("resolve");
    reveal_strlit("resolve_role");
    reveal_strlit("tool_authorization");
    reveal_strlit("preempt_wait");
    reveal_strlit("apply_tools");
    reveal_strlit("bootstrap_neurons");
    reveal_strlit("bootstrap");
    reveal_strlit("rebootstrap");
    reveal_strlit("ensure_system_neuron");
    reveal_strlit("ensure_session_neuron");
    reveal_strlit("ensure_creator");
    reveal_strlit("maybe_evolve_creator_variants");
    reveal_strlit("rollback_variant_if_regressed");
    reveal_strlit("rewrite_variant");
    reveal_strlit("recycle_if_over_capacity");
    reveal_strlit("neuron_recycle_runtime");
    reveal_strlit("select_candidates");
    reveal_strlit("select_candidates.detail");
    reveal_strlit("select_assistant_candidates");
    reveal_strlit("select_one");
    reveal_strlit("select_one.link_back");
    reveal_strlit("select_neuron.model_input");
    reveal_strlit("select_neuron.model_input.full");
    reveal_strlit("select_neuron.model_output");
    reveal_strlit("select_neuron.model_decision");
    reveal_strlit("select_role");
    reveal_strlit("fill_candidates_batch");
    if i == 26 {
    } else if i == 27 {
    } else if i == 28 {
    } else if i == 29 {
    } else if i == 30 {
    } else if i == 31 {
    } else if i == 32 {
    } else if i == 33 {
    } else if i == 34 {
    } else if i == 35 {
    } else if i == 36 {
    } else if i == 37 {
    } else if i == 38 {
    }
}

proof fn lemma_index_of_rows_39_52(i: int)
    requires
        39 <= i < 52,
    ensures
        phase_index(phase_row(i).0) == i,
{
    reveal_strlit("user_round_judgement_hook");
    reveal_strlit("round_review_hook");
    reveal_strlit("revise_topic_hook");
    reveal_strlit("score_feedback_hook");
    reveal_strlit("complete_scope_hook");
    reveal_strlit("match_topic_hook");
    reveal_strlit("compaction_hook");
    reveal_strlit("select_neuron_hook");
    reveal_strlit("assistant_hook");
    reveal_strlit("run_round");
    reveal_strlit("run_round_stream");
    reveal_strlit("round_execute");
    reveal_strlit("resolve");
    reveal_strlit("resolve_role");
    reveal_strlit("tool_authorization");
    reveal_strlit("preempt_wait");
    reveal_strlit("apply_tools");
    reveal_strlit("bootstrap_neurons");
    reveal_strlit("bootstrap");
    reveal_strlit("rebootstrap");
    reveal_strlit("ensure_system_neuron");
    reveal_strlit("ensure_session_neuron");
    reveal_strlit("ensure_creator");
    reveal_strlit("maybe_evolve_creator_variants");
    reveal_strlit("rollback_variant_if_regressed");
    reveal_strlit("rewrite_variant");
    reveal_strlit("recycle_if_over_capacity");
    reveal_strlit("neuron_recycle_runtime");
    reveal_strlit("select_candidates");
    reveal_strlit("select_candidates.detail");
    reveal_strlit("select_assistant_candidates");
    reveal_strlit("select_one");
    reveal_strlit("select_one.link_back");
    reveal_strlit("select_neuron.model_input");
    reveal_strlit("select_neuron.model_input.full");
    reveal_strlit("select_neuron.model_output");
    reveal_strlit("select_neuron.model_decision");
    reveal_strlit("select_role");
    reveal_strlit("fill_candidates_batch");
    reveal_strlit("generate_drafts");
    reveal_strlit("assistant_poll_handler");
    reveal_strlit("assistant_step");
    reveal_strlit("assistant_poller");
    reveal_strlit("assistant_converse");
    reveal_strlit("assistant_converse_stream");
    reveal_strlit("error_residency");
    reveal_strlit("poller_tick");
    reveal_strlit("poller_runtime");
    reveal_strlit("poller_config");
    reveal_strlit("send_model_message");
    reveal_strlit("send_model_message_stream");
    reveal_strlit("call_model");
    if i == 39 {
    } else if i == 40 {
    } else if i == 41 {
    } else if i == 42 {
    } else if i == 43 {
    } else if i == 44 {
    } else if i == 45 {
    } else if i == 46 {
    } else if i == 47 {
    } else if i == 48 {
    } else if i == 49 {
    } else if i == 50 {
    } else if i == 51 {
    }
}

proof fn lemma_index_of_rows_52_65(i: int)
    requires
        52 <= i < 65,
    ensures
        phase_index(phase_row(i).0) == i,
{
    reveal_strlit("user_round_judgement_hook");
    reveal_strlit("round_review_hook");
    reveal_strlit("revise_topic_hook");
    reveal_strlit("score_feedback_hook");
    reveal_strlit("complete_scope_hook");
    reveal_strlit("match_topic_hook");
    reveal_strlit("compaction_hook");
    reveal_strlit("select_neuron_hook");
    reveal_strlit("assistant_hook");
    reveal_strlit("run_round");
    reveal_strlit("run_round_stream");
    reveal_strlit("round_execute");
    reveal_strlit("resolve");
    reveal_strlit("resolve_role");
    reveal_strlit("tool_authorization");
    reveal_strlit("preempt_wait");
    reveal_strlit("apply_tools");
    reveal_strlit("bootstrap_neurons");
    reveal_strlit("bootstrap");
    reveal_strlit("rebootstrap");
    reveal_strlit("ensure_system_neuron");
    reveal_strlit("ensure_session_neuron");
    reveal_strlit("ensure_creator");
    reveal_strlit("maybe_evolve_creator_variants");
    reveal_strlit("rollback_variant_if_regressed");
    reveal_strlit("rewrite_variant");
    reveal_strlit("recycle_if_over_capacity");
    reveal_strlit("neuron_recycle_runtime");
    reveal_strlit("select_candidates");
    reveal_strlit("select_candidates.detail");
    reveal_strlit("select_assistant_candidates");
    reveal_strlit("select_one");
    reveal_strlit("select_one.link_back");
    reveal_strlit("select_neuron.model_input");
    reveal_strlit("select_neuron.model_input.full");
    reveal_strlit("select_neuron.model_output");
    reveal_strlit("select_neuron.model_decision");
    reveal_strlit("select_role");
    reveal_strlit("fill_candidates_batch");
    reveal_strlit("generate_drafts");
    reveal_strlit("assistant_poll_handler");
    reveal_strlit("assistant_step");
    reveal_strlit("assistant_poller");
    reveal_strlit("assistant_converse");
    reveal_strlit("assistant_converse_stream");
    reveal_strlit("error_residency");
    reveal_strlit("poller_tick");
    reveal_strlit("poller_runtime");
    reveal_strlit("poller_config");
    reveal_strlit("send_model_message");
    reveal_strlit("send_model_message_stream");
    reveal_strlit("call_model");
    reveal_strlit("call_judgement");
    reveal_strlit("run_judgement_round");
    reveal_strlit("parse_tool_call");
    reveal_strlit("llm_request_out");
    reveal_strlit("llm_response_in");
    reveal_strlit("llm_call_perf");
    reveal_strlit("apply_score_feedback");
    reveal_strlit("manual_score_feedback");
    reveal_strlit("score_feedback_command");
    reveal_strlit("session_coordinator");
    reveal_strlit("stop_session");
    reveal_strlit("start_session");
    reveal_strlit("tool_config");
    if i == 52 {
    } else if i == 53 {
    } else if i == 54 {
    } else if i == 55 {
    } else if i == 56 {
    } else if i == 57 {
    } else if i == 58 {
    } else if i == 59 {
    } else if i == 60 {
    } else if i == 61 {
    } else if i == 62 {
    } else if i == 63 {
    } else if i == 64 {
    }
}

proof fn lemma_index_of_row(i: int)
    requires
        0 <= i < PHASE_COUNT,
    ensures
        phase_index(phase_row(i).0) == i,
{
    if i < 13 {
        lemma_index_of_rows_0_13(i);
    } else if i < 26 {
        lemma_index_of_rows_13_26(i);
    } else if i < 39 {
        lemma_index_of_rows_26_39(i);
    } else if i < 52 {
        lemma_index_of_rows_39_52(i);
    } else if i < 65 {
        lemma_index_of_rows_52_65(i);
    }
}

/// Law: no two registered phases share a value.
pub proof fn law_phase_values_unique(i: int, j: int)
    requires
        0 <= i < j < PHASE_COUNT,
    ensures
        phase_row(i).0 != phase_row(j).0,
{
    lemma_index_of_row(i);
    lemma_index_of_row(j);
}

/// Law: every registered phase has a non-empty value, group and label.
pub proof fn law_phase_rows_nonempty(i: int)
    requires
        0 <= i < PHASE_COUNT,
    ensures
        phase_row(i).0.len() > 0,
        phase_row(i).1.len() > 0,
        phase_row(i).2.len() > 0,
{
    reveal_strlit("Hook 执行");
    reveal_strlit("apply_score_feedback");
    reveal_strlit("apply_tools");
    reveal_strlit("assistant_converse");
    reveal_strlit("assistant_converse_stream");
    reveal_strlit("assistant_hook");
    reveal_strlit("assistant_poll_handler");
    reveal_strlit("assistant_poller");
    reveal_strlit("assistant_step");
    reveal_strlit("bootstrap");
    reveal_strlit("bootstrap_neurons");
    reveal_strlit("call_judgement");
    reveal_strlit("call_model");
    reveal_strlit("compaction_hook");
    reveal_strlit("complete_scope_hook");
    reveal_strlit("ensure_creator");
    reveal_strlit("ensure_session_neuron");
    reveal_strlit("ensure_system_neuron");
    reveal_strlit("error_residency");
    reveal_strlit("fill_candidates_batch");
    reveal_strlit("generate_drafts");
    reveal_strlit("llm_call_perf");
    reveal_strlit("llm_request_out");
    reveal_strlit("llm_response_in");
    reveal_strlit("manual_score_feedback");
    reveal_strlit("match_topic_hook");
    reveal_strlit("maybe_evolve_creator_variants");
    reveal_strlit("neuron_recycle_runtime");
    reveal_strlit("parse_tool_call");
    reveal_strlit("poller_config");
    reveal_strlit("poller_runtime");
    reveal_strlit("poller_tick");
    reveal_strlit("preempt_wait");
    reveal_strlit("rebootstrap");
    reveal_strlit("recycle_if_over_capacity");
    reveal_strlit("resolve");
    reveal_strlit("resolve_role");
    reveal_strlit("revise_topic_hook");
    reveal_strlit("rewrite_variant");
    reveal_strlit("rollback_variant_if_regressed");
    reveal_strlit("round_execute");
    reveal_strlit("round_review_hook");
    reveal_strlit("run_judgement_round");
    reveal_strlit("run_round");
    reveal_strlit("run_round_stream");
    reveal_strlit("score_feedback_command");
    reveal_strlit("score_feedback_hook");
    reveal_strlit("select_assistant_candidates");
    reveal_strlit("select_candidates");
    reveal_strlit("select_candidates.detail");
    reveal_strlit("select_neuron.model_decision");
    reveal_strlit("select_neuron.model_input");
    reveal_strlit("select_neuron.model_input.full");
    reveal_strlit("select_neuron.model_output");
    reveal_strlit("select_neuron_hook");
    reveal_strlit("select_one");
    reveal_strlit("select_one.link_back");
    reveal_strlit("select_role");
    reveal_strlit("send_model_message");
    reveal_strlit("send_model_message_stream");
    reveal_strlit("session_coordinator");
    reveal_strlit("start_session");
    reveal_strlit("stop_session");
    reveal_strlit("tool_authorization");
    reveal_strlit("tool_config");
    reveal_strlit("user_round_judgement_hook");
    reveal_strlit("上下文压缩");
    reveal_strlit("会话协调器");
    reveal_strlit("会话对话");
    reveal_strlit("会话对话(流式)");
    reveal_strlit("会话步进");
    reveal_strlit("会话管理");
    reveal_strlit("停止会话");
    reveal_strlit("初始化");
    reveal_strlit("助手会话");
    reveal_strlit("助手钩子");
    reveal_strlit("发送模型消息");
    reveal_strlit("发送模型消息(流式)");
    reveal_strlit("启动会话");
    reveal_strlit("回收(runtime)");
    reveal_strlit("回收(容量)");
    reveal_strlit("回滚变体");
    reveal_strlit("工具授权");
    reveal_strlit("工具配置");
    reveal_strlit("应用工具");
    reveal_strlit("应用评分反馈");
    reveal_strlit("手动评分反馈");
    reveal_strlit("执行轮次");
    reveal_strlit("执行轮次(流式)");
    reveal_strlit("批量补给候选");
    reveal_strlit("抢占等待");
    reveal_strlit("收尾轮合并复盘");
    reveal_strlit("收尾验收");
    reveal_strlit("模型响应体");
    reveal_strlit("模型请求体");
    reveal_strlit("模型调用");
    reveal_strlit("模型调用耗时");
    reveal_strlit("演化创作者变体");
    reveal_strlit("生成草稿");
    reveal_strlit("用户轮合并裁决");
    reveal_strlit("确保会话神经元");
    reveal_strlit("确保创作者");
    reveal_strlit("确保系统神经元");
    reveal_strlit("神经元生命周期");
    reveal_strlit("神经元选型");
    reveal_strlit("神经元选择");
    reveal_strlit("神经源自举");
    reveal_strlit("筛选候选");
    reveal_strlit("筛选候选明细");
    reveal_strlit("筛选助手候选");
    reveal_strlit("范围修订");
    reveal_strlit("角色解析");
    reveal_strlit("角色解析(细)");
    reveal_strlit("角色选择");
    reveal_strlit("解析工具调用");
    reveal_strlit("评分反馈");
    reveal_strlit("评分反馈命令");
    reveal_strlit("话题匹配");
    reveal_strlit("调用模型");
    reveal_strlit("调用裁决");
    reveal_strlit("轮次执行");
    reveal_strlit("轮次执行器");
    reveal_strlit("轮询器");
    reveal_strlit("轮询处理器");
    reveal_strlit("轮询心跳");
    reveal_strlit("轮询运行时");
    reveal_strlit("轮询配置");
    reveal_strlit("运行裁决轮");
    reveal_strlit("选中单个");
    reveal_strlit("选中回链");
    reveal_strlit("选型模型决策");
    reveal_strlit("选型模型输入");
    reveal_strlit("选型模型输入(全)");
    reveal_strlit("选型模型输出");
    reveal_strlit("重写变体");
    reveal_strlit("重新初始化");
    reveal_strlit("错误驻留");
}

} // verus!
