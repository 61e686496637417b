//! The key/value cache session: its plan and its GPU work.

use crate::family::Family;
use crate::gpu::{
    buffer, copy, derived, pass, write_of_bytes, write_of_words, BindGroupModel, BindGroupPlan,
    Binding, BufferPlan, BufferUsage, Command, CommandModel, DerivedModel, DerivedPipeline,
    WriteModel, WritePlan,
};
use crate::kv_report::{KvSources, KvSourcesModel};
use crate::limits::{require_bindings, require_dispatches, DeviceLimits};
use crate::sizes::checked_u64_bytes;
use vstd::prelude::*;

verus! {

/// What the planner decided about the cache of a session.
#[derive(Clone, Copy, Debug)]
pub struct KvPlan {
    pub query_heads: u32,
    pub key_value_heads: u32,
    pub head_dim: u32,
    pub initial_cache_tokens: u32,
    pub cache_capacity: u32,
    /// The elements of one key or value row.
    pub key_value_width: usize,
    /// The bytes of one attention row.
    pub attention_bytes: u64,
    /// The bytes of one compact cache.
    pub cache_bytes: u64,
    /// The bytes of the scratch plane of a split attention.
    pub split_partials_bytes: u64,
    pub append_dispatch: [u32; 3],
    pub attention_dispatch: [u32; 3],
}

/// What the planner decided about one step of a cache.
#[derive(Clone, Copy, Debug)]
pub struct KvStepPlan {
    pub cache_tokens_before: u32,
    pub cache_tokens_after: u32,
    pub append_words: [u32; 4],
    pub attention_words: [u32; 4],
    pub append_dispatch: [u32; 3],
    pub attention_dispatch: [u32; 3],
    /// The uniform words of the partial and of the merge pass of a split attention.
    pub split_words: [[u32; 4]; 2],
    pub split_partial_dispatch: [u32; 3],
    pub split_merge_dispatch: [u32; 3],
}

/// The bytes of a buffer of uniform words.
pub const UNIFORM_BUFFER_BYTES: u64 = 16;

pub const KV_QUERY: usize = 0;

pub const KV_APPENDED_KEY: usize = 1;

pub const KV_APPENDED_VALUE: usize = 2;

pub const KV_KEY_CACHE: usize = 3;

pub const KV_VALUE_CACHE: usize = 4;

pub const KV_ATTENTION_OUTPUT: usize = 5;

pub const KV_APPEND_UNIFORM: usize = 6;

pub const KV_ATTENTION_UNIFORM: usize = 7;

pub const KV_ATTENTION_READBACK: usize = 8;

/// The place of the buffer that a finish adds.
pub const KV_FINISH_READBACK: usize = 9;

pub const KV_APPEND: usize = 0;

pub const KV_ATTENTION: usize = 1;

/// What is wrong with the sizes of a session on a device.
pub open spec fn kv_sizes_complaint(limits: DeviceLimits, plan: KvPlan) -> Option<Seq<char>> {
    let row = plan.key_value_width * 4;
    if row > u64::MAX {
        Some("decoder KV row byte size overflowed"@)
    } else {
        let sizes = seq![
            ("decoder session query"@, plan.attention_bytes),
            ("decoder session appended key/value row"@, row as u64),
            ("decoder session compact cache"@, plan.cache_bytes),
            ("decoder session attention output"@, plan.attention_bytes),
        ];
        match crate::limits::binding_complaint_from(
            sizes,
            limits.max_storage_buffer_binding_size,
            0,
        ) {
            Some(message) => Some(message),
            None => if plan.cache_bytes * 2 > u64::MAX {
                Some("decoder KV cache readback byte size overflowed"@)
            } else if plan.attention_bytes > limits.max_buffer_size || plan.cache_bytes * 2
                > limits.max_buffer_size {
                Some("decoder KV session readback exceeds the adapter buffer size limit"@)
            } else {
                None
            },
        }
    }
}

/// What a dispatch planner says of the invocations of a session: nothing, or how one exceeds
/// the device.
pub struct KvVerdicts {
    pub append: Option<String>,
    pub attention: Option<String>,
}

/// What a dispatch planner says of the invocations of a session, in the order in which it is
/// heard.
pub open spec fn kv_verdict_texts(verdicts: KvVerdicts) -> Seq<Option<Seq<char>>> {
    crate::limits::verdict_texts(seq![verdicts.append, verdicts.attention])
}

/// What a device lacks for a session.
pub open spec fn kv_capabilities_complaint(
    limits: DeviceLimits,
    plan: KvPlan,
    verdicts: Seq<Option<Seq<char>>>,
) -> Option<Seq<char>> {
    if limits.max_storage_buffers_per_shader_stage < 4 {
        Some("decoder KV session requires four storage buffers per shader stage"@)
    } else {
        crate::text::earlier(
            crate::limits::dispatch_complaint_from(Family::Kv, verdicts, 0),
            kv_sizes_complaint(limits, plan),
        )
    }
}

fn require_kv_sizes(limits: &DeviceLimits, plan: &KvPlan) -> (outcome: Result<(), String>)
    ensures
        crate::text::complaint(outcome) == kv_sizes_complaint(*limits, *plan),
{
    let row: u64 = match (plan.key_value_width as u64).checked_mul(4) {
        Some(row) => row,
        None => {
            return Err("decoder KV row byte size overflowed".to_owned());
        },
    };
    let sizes: Vec<(&'static str, u64)> = vec![
        ("decoder session query", plan.attention_bytes),
        ("decoder session appended key/value row", row),
        ("decoder session compact cache", plan.cache_bytes),
        ("decoder session attention output", plan.attention_bytes),
    ];
    assert(crate::limits::named_sizes(sizes@) =~= seq![
        ("decoder session query"@, plan.attention_bytes),
        ("decoder session appended key/value row"@, row),
        ("decoder session compact cache"@, plan.cache_bytes),
        ("decoder session attention output"@, plan.attention_bytes),
    ]);
    require_bindings(&sizes, limits.max_storage_buffer_binding_size)?;
    let readback: u64 = match plan.cache_bytes.checked_mul(2) {
        Some(readback) => readback,
        None => {
            return Err("decoder KV cache readback byte size overflowed".to_owned());
        },
    };
    if plan.attention_bytes > limits.max_buffer_size || readback > limits.max_buffer_size {
        return Err(
            "decoder KV session readback exceeds the adapter buffer size limit".to_owned(),
        );
    }
    Ok(())
}

/// Requires a device to be able to run a session.
pub fn validate_decoder_capabilities(
    limits: &DeviceLimits,
    plan: &KvPlan,
    verdicts: KvVerdicts,
) -> (outcome: Result<(), String>)
    ensures
        crate::text::complaint(outcome) == kv_capabilities_complaint(
            *limits,
            *plan,
            kv_verdict_texts(verdicts),
        ),
{
    let ghost texts = kv_verdict_texts(verdicts);
    if limits.max_storage_buffers_per_shader_stage < 4 {
        return Err(
            "decoder KV session requires four storage buffers per shader stage".to_owned(),
        );
    }
    let heard: Vec<Option<String>> = vec![verdicts.append, verdicts.attention];
    assert(crate::limits::verdict_texts(heard@) =~= texts);
    require_dispatches(Family::Kv, &heard)?;
    require_kv_sizes(limits, plan)
}

/// The buffers of a session.
pub open spec fn kv_buffers(plan: KvPlan) -> Seq<BufferPlan> {
    let row = (plan.key_value_width * 4) as u64;
    seq![
        BufferPlan {
            label: "decoder-kv-session-query",
            size: plan.attention_bytes,
            usage: BufferUsage::StorageInput,
        },
        BufferPlan {
            label: "decoder-kv-session-appended-key",
            size: row,
            usage: BufferUsage::StorageInput,
        },
        BufferPlan {
            label: "decoder-kv-session-appended-value",
            size: row,
            usage: BufferUsage::StorageInput,
        },
        BufferPlan {
            label: "decoder-kv-session-key-cache",
            size: plan.cache_bytes,
            usage: BufferUsage::StorageCache,
        },
        BufferPlan {
            label: "decoder-kv-session-value-cache",
            size: plan.cache_bytes,
            usage: BufferUsage::StorageCache,
        },
        BufferPlan {
            label: "decoder-kv-session-attention-output",
            size: plan.attention_bytes,
            usage: BufferUsage::StorageOutput,
        },
        BufferPlan {
            label: "decoder-kv-session-append-uniform",
            size: UNIFORM_BUFFER_BYTES,
            usage: BufferUsage::Uniform,
        },
        BufferPlan {
            label: "decoder-kv-session-attention-uniform",
            size: UNIFORM_BUFFER_BYTES,
            usage: BufferUsage::Uniform,
        },
        BufferPlan {
            label: "decoder-kv-session-attention-readback",
            size: plan.attention_bytes,
            usage: BufferUsage::Readback,
        },
    ]
}

/// The bind groups of a session.
pub open spec fn kv_bind_groups(plan: KvPlan) -> Seq<BindGroupModel> {
    let row = (plan.key_value_width * 4) as u64;
    seq![
        BindGroupModel {
            label: "decoder-kv-session-append-bind-group",
            pipeline: KV_APPEND,
            bindings: seq![
                Binding { buffer: KV_APPENDED_KEY, size: row },
                Binding { buffer: KV_APPENDED_VALUE, size: row },
                Binding { buffer: KV_KEY_CACHE, size: plan.cache_bytes },
                Binding { buffer: KV_VALUE_CACHE, size: plan.cache_bytes },
                Binding { buffer: KV_APPEND_UNIFORM, size: UNIFORM_BUFFER_BYTES },
            ],
        },
        BindGroupModel {
            label: "decoder-kv-session-attention-bind-group",
            pipeline: KV_ATTENTION,
            bindings: seq![
                Binding { buffer: KV_QUERY, size: plan.attention_bytes },
                Binding { buffer: KV_KEY_CACHE, size: plan.cache_bytes },
                Binding { buffer: KV_VALUE_CACHE, size: plan.cache_bytes },
                Binding { buffer: KV_ATTENTION_OUTPUT, size: plan.attention_bytes },
                Binding { buffer: KV_ATTENTION_UNIFORM, size: UNIFORM_BUFFER_BYTES },
            ],
        },
    ]
}

/// The pipelines of a session: those of the append and the attention kernel.
pub open spec fn kv_pipelines(sources: KvSourcesModel) -> Seq<DerivedModel> {
    seq![
        DerivedModel {
            place: KV_APPEND,
            kernel: "decoder_kv_append_f32"@,
            source: sources.append,
        },
        DerivedModel {
            place: KV_ATTENTION,
            kernel: "decoder_gqa_f32"@,
            source: sources.attention,
        },
    ]
}

/// What a session allocates: its buffers, then its pipelines, then its bind groups; and the
/// tokens that its caches start with.
pub struct KvResources<'a> {
    pub cache_tokens: u32,
    pub buffers: Vec<BufferPlan>,
    pub pipelines: Vec<DerivedPipeline<'a>>,
    pub bind_groups: Vec<BindGroupPlan>,
}

fn create_decoder_pipelines<'a>(sources: &'a KvSources) -> (pipelines: Vec<DerivedPipeline<'a>>)
    ensures
        crate::gpu::derived_models(pipelines@) == kv_pipelines(
            crate::kv_report::kv_sources_model(*sources),
        ),
{
    let pipelines: Vec<DerivedPipeline<'a>> = vec![
        derived(KV_APPEND, "decoder_kv_append_f32", sources.append.as_str()),
        derived(KV_ATTENTION, "decoder_gqa_f32", sources.attention.as_str()),
    ];
    assert(crate::gpu::derived_models(pipelines@) =~= kv_pipelines(
        crate::kv_report::kv_sources_model(*sources),
    ));
    pipelines
}

/// Plans what a session allocates.
pub fn create_decoder_resources<'a>(plan: &KvPlan, sources: &'a KvSources) -> (resources: Result<
    KvResources<'a>,
    String,
>)
    ensures
        match resources {
            Ok(found) => plan.key_value_width * 4 <= u64::MAX && found.cache_tokens
                == plan.initial_cache_tokens && found.buffers@ == kv_buffers(*plan) && crate::gpu::derived_models(found.pipelines@) == kv_pipelines(
                crate::kv_report::kv_sources_model(*sources),
            ) && crate::gpu::group_models(found.bind_groups@) == kv_bind_groups(*plan),
            Err(message) => plan.key_value_width * 4 > u64::MAX && message@
                == "decoder KV row"@ + " byte size overflowed"@,
        },
{
    let row: u64 = checked_u64_bytes(plan.key_value_width, "decoder KV row")?;
    let buffers: Vec<BufferPlan> = vec![
        buffer("decoder-kv-session-query", plan.attention_bytes, BufferUsage::StorageInput),
        buffer("decoder-kv-session-appended-key", row, BufferUsage::StorageInput),
        buffer("decoder-kv-session-appended-value", row, BufferUsage::StorageInput),
        buffer("decoder-kv-session-key-cache", plan.cache_bytes, BufferUsage::StorageCache),
        buffer("decoder-kv-session-value-cache", plan.cache_bytes, BufferUsage::StorageCache),
        buffer(
            "decoder-kv-session-attention-output",
            plan.attention_bytes,
            BufferUsage::StorageOutput,
        ),
        buffer("decoder-kv-session-append-uniform", UNIFORM_BUFFER_BYTES, BufferUsage::Uniform),
        buffer(
            "decoder-kv-session-attention-uniform",
            UNIFORM_BUFFER_BYTES,
            BufferUsage::Uniform,
        ),
        buffer(
            "decoder-kv-session-attention-readback",
            plan.attention_bytes,
            BufferUsage::Readback,
        ),
    ];
    assert(buffers@ =~= kv_buffers(*plan));
    let bind_groups: Vec<BindGroupPlan> = vec![
        BindGroupPlan {
            label: "decoder-kv-session-append-bind-group",
            pipeline: KV_APPEND,
            bindings: vec![
                Binding { buffer: KV_APPENDED_KEY, size: row },
                Binding { buffer: KV_APPENDED_VALUE, size: row },
                Binding { buffer: KV_KEY_CACHE, size: plan.cache_bytes },
                Binding { buffer: KV_VALUE_CACHE, size: plan.cache_bytes },
                Binding { buffer: KV_APPEND_UNIFORM, size: UNIFORM_BUFFER_BYTES },
            ],
        },
        BindGroupPlan {
            label: "decoder-kv-session-attention-bind-group",
            pipeline: KV_ATTENTION,
            bindings: vec![
                Binding { buffer: KV_QUERY, size: plan.attention_bytes },
                Binding { buffer: KV_KEY_CACHE, size: plan.cache_bytes },
                Binding { buffer: KV_VALUE_CACHE, size: plan.cache_bytes },
                Binding { buffer: KV_ATTENTION_OUTPUT, size: plan.attention_bytes },
                Binding { buffer: KV_ATTENTION_UNIFORM, size: UNIFORM_BUFFER_BYTES },
            ],
        },
    ];
    assert(crate::gpu::group_models(bind_groups@) =~~= kv_bind_groups(*plan));
    Ok(
        KvResources {
            cache_tokens: plan.initial_cache_tokens,
            buffers,
            pipelines: create_decoder_pipelines(sources),
            bind_groups,
        },
    )
}

/// The queue writes that fill the caches of a new session.
pub open spec fn kv_uploads(key_cache: Seq<u8>, value_cache: Seq<u8>) -> Seq<WriteModel> {
    seq![
        crate::gpu::bytes_write(KV_KEY_CACHE, key_cache),
        crate::gpu::bytes_write(KV_VALUE_CACHE, value_cache),
    ]
}

/// The queue writes that fill the caches of a new session.
pub fn upload_initial_caches(key_cache_bytes: Vec<u8>, value_cache_bytes: Vec<u8>) -> (writes: Vec<
    WritePlan,
>)
    ensures
        crate::gpu::write_models(writes@) == kv_uploads(key_cache_bytes@, value_cache_bytes@),
{
    let writes: Vec<WritePlan> = vec![
        write_of_bytes(KV_KEY_CACHE, key_cache_bytes),
        write_of_bytes(KV_VALUE_CACHE, value_cache_bytes),
    ];
    assert(crate::gpu::write_models(writes@) =~= kv_uploads(
        key_cache_bytes@,
        value_cache_bytes@,
    ));
    writes
}

/// The operands of one step.
pub struct KvStepOperands {
    pub query_bytes: Vec<u8>,
    pub appended_key_bytes: Vec<u8>,
    pub appended_value_bytes: Vec<u8>,
}

/// What one operation asks the queue to do: writes, then one encoder with its commands, then
/// one submission.
pub struct Encoding {
    pub writes: Vec<WritePlan>,
    pub encoder: &'static str,
    pub commands: Vec<Command>,
}

/// The queue writes of a step.
pub open spec fn kv_step_writes(
    step: KvStepPlan,
    query: Seq<u8>,
    appended_key: Seq<u8>,
    appended_value: Seq<u8>,
) -> Seq<WriteModel> {
    seq![
        crate::gpu::bytes_write(KV_QUERY, query),
        crate::gpu::bytes_write(KV_APPENDED_KEY, appended_key),
        crate::gpu::bytes_write(KV_APPENDED_VALUE, appended_value),
        crate::gpu::words_write(KV_APPEND_UNIFORM, step.append_words),
        crate::gpu::words_write(KV_ATTENTION_UNIFORM, step.attention_words),
    ]
}

/// The commands of a step: append, attend, copy the attention row out.
pub open spec fn kv_step_commands(plan: KvPlan, step: KvStepPlan) -> Seq<CommandModel> {
    seq![
        crate::gpu::pass_model(KV_APPEND, KV_APPEND, step.append_dispatch, Seq::empty()),
        crate::gpu::pass_model(KV_ATTENTION, KV_ATTENTION, step.attention_dispatch, Seq::empty()),
        crate::gpu::copy_model(
            KV_ATTENTION_OUTPUT,
            0,
            KV_ATTENTION_READBACK,
            0,
            plan.attention_bytes,
        ),
    ]
}

/// Plans the GPU work of one step.
pub fn encode_decoder_step(plan: &KvPlan, step: &KvStepPlan, operands: KvStepOperands) -> (encoding:
    Encoding)
    ensures
        crate::gpu::write_models(encoding.writes@) == kv_step_writes(
            *step,
            operands.query_bytes@,
            operands.appended_key_bytes@,
            operands.appended_value_bytes@,
        ),
        encoding.encoder@ == "decoder-kv-session-step-encoder"@,
        crate::gpu::command_models(encoding.commands@) == kv_step_commands(*plan, *step),
{
    let writes: Vec<WritePlan> = vec![
        write_of_bytes(KV_QUERY, operands.query_bytes),
        write_of_bytes(KV_APPENDED_KEY, operands.appended_key_bytes),
        write_of_bytes(KV_APPENDED_VALUE, operands.appended_value_bytes),
        write_of_words(KV_APPEND_UNIFORM, &step.append_words),
        write_of_words(KV_ATTENTION_UNIFORM, &step.attention_words),
    ];
    assert(crate::gpu::write_models(writes@) =~= kv_step_writes(
        *step,
        operands.query_bytes@,
        operands.appended_key_bytes@,
        operands.appended_value_bytes@,
    ));
    let commands: Vec<Command> = vec![
        pass(KV_APPEND, KV_APPEND, step.append_dispatch),
        pass(KV_ATTENTION, KV_ATTENTION, step.attention_dispatch),
        copy(KV_ATTENTION_OUTPUT, 0, KV_ATTENTION_READBACK, 0, plan.attention_bytes),
    ];
    assert(crate::gpu::command_models(commands@) =~= kv_step_commands(*plan, *step));
    Encoding { writes, encoder: "decoder-kv-session-step-encoder", commands }
}

/// What a finish allocates, and what it asks the queue to do.
pub struct FinishEncoding {
    pub buffers: Vec<BufferPlan>,
    pub encoder: &'static str,
    pub commands: Vec<Command>,
}

/// The buffer that a finish adds.
pub open spec fn kv_finish_buffers(plan: KvPlan) -> Seq<BufferPlan> {
    seq![
        BufferPlan {
            label: "decoder-kv-session-finish-readback",
            size: (plan.cache_bytes * 2) as u64,
            usage: BufferUsage::Readback,
        },
    ]
}

/// The commands of a finish: both caches go into one readback, the keys first.
pub open spec fn kv_finish_commands(plan: KvPlan) -> Seq<CommandModel> {
    seq![
        crate::gpu::copy_model(KV_KEY_CACHE, 0, KV_FINISH_READBACK, 0, plan.cache_bytes),
        crate::gpu::copy_model(
            KV_VALUE_CACHE,
            0,
            KV_FINISH_READBACK,
            plan.cache_bytes,
            plan.cache_bytes,
        ),
    ]
}

/// Plans the GPU work of a finish.
pub fn encode_decoder_finish(plan: &KvPlan) -> (encoding: Result<FinishEncoding, String>)
    ensures
        match encoding {
            Ok(found) => plan.cache_bytes * 2 <= u64::MAX && found.buffers@ == kv_finish_buffers(
                *plan,
            ) && found.encoder@ == "decoder-kv-session-finish-encoder"@
                && crate::gpu::command_models(found.commands@) == kv_finish_commands(*plan),
            Err(message) => plan.cache_bytes * 2 > u64::MAX && message@
                == "decoder KV finish readback overflowed"@,
        },
{
    let readback_bytes: u64 = match plan.cache_bytes.checked_mul(2) {
        Some(bytes) => bytes,
        None => {
            return Err("decoder KV finish readback overflowed".to_owned());
        },
    };
    let buffers: Vec<BufferPlan> = vec![
        buffer("decoder-kv-session-finish-readback", readback_bytes, BufferUsage::Readback),
    ];
    assert(buffers@ =~= kv_finish_buffers(*plan));
    let commands: Vec<Command> = vec![
        copy(KV_KEY_CACHE, 0, KV_FINISH_READBACK, 0, plan.cache_bytes),
        copy(KV_VALUE_CACHE, 0, KV_FINISH_READBACK, plan.cache_bytes, plan.cache_bytes),
    ];
    assert(crate::gpu::command_models(commands@) =~= kv_finish_commands(*plan));
    Ok(FinishEncoding { buffers, encoder: "decoder-kv-session-finish-encoder", commands })
}

/// The key cache and the value cache in the readback of a finish.
pub open spec fn split_caches(mapped: Seq<u8>, plan: KvPlan) -> (Seq<u8>, Seq<u8>) {
    (
        mapped.subrange(0, plan.cache_bytes as int),
        mapped.subrange(plan.cache_bytes as int, mapped.len() as int),
    )
}

/// Splits the readback of a finish into the key cache and the value cache.
pub fn split_finish_readback(mapped: Vec<u8>, plan: &KvPlan) -> (caches: Result<
    (Vec<u8>, Vec<u8>),
    String,
>)
    requires
        plan.cache_bytes <= mapped.len(),
    ensures
        caches matches Ok((key_cache, value_cache)) && (key_cache@, value_cache@) == split_caches(
            mapped@,
            *plan,
        ),
{
    let cache_bytes: usize = crate::sizes::checked_usize(plan.cache_bytes, "decoder cache")?;
    let mut key_cache: Vec<u8> = mapped;
    let value_cache: Vec<u8> = key_cache.split_off(cache_bytes);
    Ok((key_cache, value_cache))
}

/// The buffers of a session and of its finish, by their places.
pub open spec fn kv_all_buffers(plan: KvPlan) -> Seq<BufferPlan> {
    kv_buffers(plan) + kv_finish_buffers(plan)
}

/// Every binding of a session lies inside a buffer that shaders may bind.
pub proof fn law_kv_bindings_fit(plan: KvPlan)
    ensures
        forall|i: int|
            0 <= i < kv_bind_groups(plan).len() ==> crate::gpu::group_fits(
                #[trigger] kv_bind_groups(plan)[i],
                kv_buffers(plan),
            ),
{
}

/// The GPU work of a step stays inside the buffers of its session, for operands of the
/// planned sizes.
pub proof fn law_kv_step_fits(
    plan: KvPlan,
    step: KvStepPlan,
    query: Seq<u8>,
    appended_key: Seq<u8>,
    appended_value: Seq<u8>,
)
    requires
        plan.key_value_width * 4 <= u64::MAX,
        query.len() == plan.attention_bytes,
        appended_key.len() == plan.key_value_width * 4,
        appended_value.len() == plan.key_value_width * 4,
    ensures
        forall|i: int|
            0 <= i < 5 ==> crate::gpu::write_fits(
                #[trigger] kv_step_writes(step, query, appended_key, appended_value)[i],
                kv_buffers(plan),
            ),
        forall|i: int|
            0 <= i < 3 ==> crate::gpu::copy_fits(
                #[trigger] kv_step_commands(plan, step)[i],
                kv_buffers(plan),
            ),
{
    assert(crate::words::bytes_of_words32(step.append_words@).len() == 16);
    assert(crate::words::bytes_of_words32(step.attention_words@).len() == 16);
}

/// The copies of a finish stay inside the caches and the readback, and fill the readback.
pub proof fn law_kv_finish_fits(plan: KvPlan)
    requires
        plan.cache_bytes * 2 <= u64::MAX,
    ensures
        forall|i: int|
            0 <= i < 2 ==> crate::gpu::copy_fits(
                #[trigger] kv_finish_commands(plan)[i],
                kv_all_buffers(plan),
            ),
        kv_all_buffers(plan)[KV_FINISH_READBACK as int].size == plan.cache_bytes * 2,
{
}

/// No pass is given the same buffer twice, so none writes what it reads.
pub proof fn law_kv_groups_do_not_alias(plan: KvPlan)
    ensures
        forall|i: int|
            0 <= i < kv_bind_groups(plan).len() ==> crate::gpu::distinct_buffers(
                #[trigger] kv_bind_groups(plan)[i],
            ),
{
}

/// The pipelines of a session stand at their places, are those of the kernels that it lists, and
/// every pass of a step runs one of them on a bind group that is made for it.
pub proof fn law_kv_pipelines_are_in_place(plan: KvPlan, step: KvStepPlan, sources: KvSourcesModel)
    ensures
        crate::gpu::derived_in_place(kv_pipelines(sources)),
        kv_pipelines(sources).map_values(|pipeline: DerivedModel| pipeline.kernel)
            == crate::kv_report::kv_kernels(),
        forall|i: int|
            0 <= i < kv_step_commands(plan, step).len() ==> crate::gpu::pass_in_place(
                #[trigger] kv_step_commands(plan, step)[i],
                kv_pipelines(sources),
                kv_bind_groups(plan),
            ),
{
    assert(kv_pipelines(sources).map_values(|pipeline: DerivedModel| pipeline.kernel)
        =~= crate::kv_report::kv_kernels());
}

} // verus!
