//! What the work of a key/value cache session does to the bytes on a device.

use crate::dataflow::{Device, Setup};
use crate::device_laws::Memory;
use crate::gpu::{BufferPlan, CommandModel, WriteModel};
use crate::kv::{
    KvPlan, KvStepPlan, KV_APPEND, KV_APPENDED_KEY, KV_APPENDED_VALUE, KV_APPEND_UNIFORM,
    KV_ATTENTION, KV_ATTENTION_OUTPUT, KV_ATTENTION_READBACK, KV_ATTENTION_UNIFORM,
    KV_FINISH_READBACK, KV_KEY_CACHE, KV_QUERY, KV_VALUE_CACHE,
};
use crate::kv_report::KvSourcesModel;
use crate::lifecycle::Operation;
use crate::stack_resources::{LayoutEntry, LAYOUT_APPEND, LAYOUT_ATTENTION};
use vstd::prelude::*;

verus! {

/// The bindings of the kernels of a session: the append reads two rows and stores into two
/// caches, the attention reads a query and two caches and stores one row; both read uniform
/// words last.
pub open spec fn kv_entries(pipeline: usize) -> Seq<LayoutEntry> {
    crate::dataflow::derived_entries(
        crate::stack_resources::layout_entries(
            if pipeline == KV_APPEND {
                LAYOUT_APPEND
            } else {
                LAYOUT_ATTENTION
            },
        ),
    )
}

/// What the passes of a session run on.
pub open spec fn kv_setup(device: Device, sources: KvSourcesModel, plan: KvPlan) -> Setup {
    Setup {
        device,
        shaders: |pipeline: usize|
            crate::dataflow::derived_source(crate::kv::kv_pipelines(sources), pipeline),
        layouts: |pipeline: usize| kv_entries(pipeline),
        groups: crate::kv::kv_bind_groups(plan),
    }
}

/// What a session has in its memory after a step.
pub open spec fn after_kv_step(
    device: Device,
    sources: KvSourcesModel,
    plan: KvPlan,
    step: KvStepPlan,
    query: Seq<u8>,
    key: Seq<u8>,
    value: Seq<u8>,
    memory: Memory,
) -> Memory {
    crate::dataflow::performed(
        kv_setup(device, sources, plan),
        crate::kv::kv_step_writes(step, query, key, value),
        crate::kv::kv_step_commands(plan, step),
        memory,
    )
}

/// What a session has in its memory after a finish.
pub open spec fn after_kv_finish(
    device: Device,
    sources: KvSourcesModel,
    plan: KvPlan,
    memory: Memory,
) -> Memory {
    crate::dataflow::performed(
        kv_setup(device, sources, plan),
        Seq::empty(),
        crate::kv::kv_finish_commands(plan),
        memory,
    )
}

/// Whether the operands of a step are as long as the buffers that they fill.
pub open spec fn kv_operands_sized(
    plan: KvPlan,
    query: Seq<u8>,
    key: Seq<u8>,
    value: Seq<u8>,
) -> bool {
    &&& plan.key_value_width * 4 <= u64::MAX
    &&& query.len() == plan.attention_bytes
    &&& key.len() == plan.key_value_width * 4
    &&& value.len() == plan.key_value_width * 4
}

/// A new session starts with its key cache filled with the keys that it is given, and its value
/// cache with the values.
pub proof fn law_kv_caches_start_filled(
    plan: KvPlan,
    key_cache: Seq<u8>,
    value_cache: Seq<u8>,
    memory: Memory,
)
    requires
        crate::device_laws::has_buffers(memory, crate::kv::kv_all_buffers(plan)),
        key_cache.len() == plan.cache_bytes,
        value_cache.len() == plan.cache_bytes,
    ensures
        ({
            let writes = crate::kv::kv_uploads(key_cache, value_cache);
            let now = crate::dataflow::written(writes, memory, writes.len() as int);
            &&& now[KV_KEY_CACHE as int] == key_cache
            &&& now[KV_VALUE_CACHE as int] == value_cache
            &&& crate::device_laws::has_buffers(now, crate::kv::kv_all_buffers(plan))
        }),
{
    let writes = crate::kv::kv_uploads(key_cache, value_cache);
    crate::dataflow::lemma_whole();
    crate::dataflow::lemma_written(writes, memory, 2);
    let now = crate::dataflow::written(writes, memory, 2);
    assert(now[writes[0].buffer as int] == key_cache);
    assert(now[writes[1].buffer as int] == value_cache);
}

proof fn lemma_kv_written(
    plan: KvPlan,
    step: KvStepPlan,
    query: Seq<u8>,
    key: Seq<u8>,
    value: Seq<u8>,
    memory: Memory,
)
    requires
        crate::device_laws::has_buffers(memory, crate::kv::kv_all_buffers(plan)),
        kv_operands_sized(plan, query, key, value),
    ensures
        ({
            let writes = crate::kv::kv_step_writes(step, query, key, value);
            let now = crate::dataflow::written(writes, memory, writes.len() as int);
            &&& now.len() == memory.len()
            &&& now[KV_QUERY as int] == query
            &&& now[KV_APPENDED_KEY as int] == key
            &&& now[KV_APPENDED_VALUE as int] == value
            &&& now[KV_APPEND_UNIFORM as int] == crate::dataflow::uniform(step.append_words)
            &&& now[KV_ATTENTION_UNIFORM as int] == crate::dataflow::uniform(step.attention_words)
            &&& now[KV_KEY_CACHE as int] == memory[KV_KEY_CACHE as int]
            &&& now[KV_VALUE_CACHE as int] == memory[KV_VALUE_CACHE as int]
            &&& now[KV_ATTENTION_OUTPUT as int] == memory[KV_ATTENTION_OUTPUT as int]
            &&& now[KV_ATTENTION_READBACK as int] == memory[KV_ATTENTION_READBACK as int]
            &&& now[KV_FINISH_READBACK as int] == memory[KV_FINISH_READBACK as int]
        }),
{
    let writes = crate::kv::kv_step_writes(step, query, key, value);
    crate::dataflow::lemma_whole();
    crate::dataflow::lemma_written(writes, memory, 5);
    let now = crate::dataflow::written(writes, memory, 5);
    assert(writes[0].buffer == KV_QUERY && writes[1].buffer == KV_APPENDED_KEY
        && writes[2].buffer == KV_APPENDED_VALUE && writes[3].buffer == KV_APPEND_UNIFORM
        && writes[4].buffer == KV_ATTENTION_UNIFORM);
    assert(now[writes[0].buffer as int] == query);
    assert(now[writes[1].buffer as int] == key);
    assert(now[writes[2].buffer as int] == value);
    assert(now[writes[3].buffer as int] == crate::dataflow::uniform(step.append_words));
    assert(now[writes[4].buffer as int] == crate::dataflow::uniform(step.attention_words));
}

/// A step appends its key and its value, each to its own cache, and reads back what the
/// attention makes of its query and the caches with the new token in them. Both kernels run with
/// their own dispatches and uniform words.
pub proof fn law_kv_step_attends_over_its_token(
    device: Device,
    sources: KvSourcesModel,
    plan: KvPlan,
    step: KvStepPlan,
    query: Seq<u8>,
    key: Seq<u8>,
    value: Seq<u8>,
    memory: Memory,
)
    requires
        crate::dataflow::keeps_lengths(device),
        crate::device_laws::has_buffers(memory, crate::kv::kv_all_buffers(plan)),
        kv_operands_sized(plan, query, key, value),
    ensures
        ({
            let now = after_kv_step(device, sources, plan, step, query, key, value, memory);
            let given = seq![key, value, crate::dataflow::uniform(step.append_words)];
            let keys = device(
                sources.append,
                step.append_dispatch,
                given,
                0,
                memory[KV_KEY_CACHE as int],
            );
            let values = device(
                sources.append,
                step.append_dispatch,
                given,
                1,
                memory[KV_VALUE_CACHE as int],
            );
            &&& now[KV_KEY_CACHE as int] == keys
            &&& now[KV_VALUE_CACHE as int] == values
            &&& now[KV_ATTENTION_READBACK as int] == device(
                sources.attention,
                step.attention_dispatch,
                seq![query, keys, values, crate::dataflow::uniform(step.attention_words)],
                0,
                memory[KV_ATTENTION_OUTPUT as int],
            )
            &&& crate::device_laws::has_buffers(now, crate::kv::kv_all_buffers(plan))
        }),
{
    let setup = kv_setup(device, sources, plan);
    let writes = crate::kv::kv_step_writes(step, query, key, value);
    let commands = crate::kv::kv_step_commands(plan, step);
    let m0 = crate::dataflow::written(writes, memory, writes.len() as int);
    let m1 = crate::dataflow::after(setup, commands, m0, 1);
    let m2 = crate::dataflow::after(setup, commands, m0, 2);
    let m3 = crate::dataflow::after(setup, commands, m0, 3);
    lemma_kv_written(plan, step, query, key, value, memory);
    crate::dataflow::lemma_whole();
    let pipelines = crate::kv::kv_pipelines(sources);
    crate::dataflow::lemma_derived_source(pipelines, 0);
    crate::dataflow::lemma_derived_source(pipelines, 1);
    assert((setup.shaders)(KV_APPEND) == sources.append);
    assert((setup.shaders)(KV_ATTENTION) == sources.attention);
    reveal_with_fuel(crate::dataflow::after, 4);
    assert(m1 == crate::dataflow::carried_out(setup, commands[0], m0));
    assert(m2 == crate::dataflow::carried_out(setup, commands[1], m1));
    assert(m3 == crate::dataflow::carried_out(setup, commands[2], m2));
    crate::dataflow::lemma_middle_of_five(
        setup,
        KV_APPEND,
        KV_APPEND,
        step.append_dispatch,
        Seq::empty(),
        m0,
    );
    let given = seq![key, value, crate::dataflow::uniform(step.append_words)];
    let keys = device(
        sources.append,
        step.append_dispatch,
        given,
        0,
        memory[KV_KEY_CACHE as int],
    );
    let values = device(
        sources.append,
        step.append_dispatch,
        given,
        1,
        memory[KV_VALUE_CACHE as int],
    );
    assert(m1 == m0.update(KV_KEY_CACHE as int, keys).update(KV_VALUE_CACHE as int, values));
    crate::dataflow::lemma_fourth_of_five(
        setup,
        KV_ATTENTION,
        KV_ATTENTION,
        step.attention_dispatch,
        Seq::empty(),
        m1,
    );
    let attended = device(
        sources.attention,
        step.attention_dispatch,
        seq![query, keys, values, crate::dataflow::uniform(step.attention_words)],
        0,
        memory[KV_ATTENTION_OUTPUT as int],
    );
    assert(m2 == m1.update(KV_ATTENTION_OUTPUT as int, attended));
    assert(m3 == m2.update(KV_ATTENTION_READBACK as int, attended));
}

/// A finish brings back the key cache, and behind it the value cache, as they are.
pub proof fn law_kv_finish_brings_back_both_caches(
    device: Device,
    sources: KvSourcesModel,
    plan: KvPlan,
    memory: Memory,
)
    requires
        plan.cache_bytes * 2 <= u64::MAX,
        crate::device_laws::has_buffers(memory, crate::kv::kv_all_buffers(plan)),
    ensures
        ({
            let mapped = after_kv_finish(
                device,
                sources,
                plan,
                memory,
            )[KV_FINISH_READBACK as int];
            &&& mapped.len() == plan.cache_bytes * 2
            &&& mapped.subrange(0, plan.cache_bytes as int) == memory[KV_KEY_CACHE as int]
            &&& mapped.subrange(plan.cache_bytes as int, mapped.len() as int)
                == memory[KV_VALUE_CACHE as int]
        }),
{
    let setup = kv_setup(device, sources, plan);
    let commands = crate::kv::kv_finish_commands(plan);
    reveal_with_fuel(crate::dataflow::after, 3);
    reveal_with_fuel(crate::dataflow::written, 1);
    crate::dataflow::lemma_whole();
    let m1 = crate::dataflow::carried_out(setup, commands[0], memory);
    let m2 = crate::dataflow::carried_out(setup, commands[1], m1);
    let mapped = after_kv_finish(device, sources, plan, memory)[KV_FINISH_READBACK as int];
    assert(mapped == m2[KV_FINISH_READBACK as int]);
    assert(mapped.subrange(0, plan.cache_bytes as int) =~= memory[KV_KEY_CACHE as int]);
    assert(mapped.subrange(plan.cache_bytes as int, mapped.len() as int)
        =~= memory[KV_VALUE_CACHE as int]);
}

/// Whether an append kernel puts a key into the key cache and a value into the value cache, both
/// at the same place, and changes nothing else there.
pub open spec fn appends_at(
    device: Device,
    source: Seq<char>,
    dispatch: [u32; 3],
    words: [u32; 4],
    place: int,
) -> bool {
    forall|reads: Seq<Seq<u8>>, cache: Seq<u8>|
        #![trigger device(source, dispatch, reads, 0, cache)]
        #![trigger device(source, dispatch, reads, 1, cache)]
        reads.len() == 3 && reads[2] == crate::dataflow::uniform(words) ==> device(
            source,
            dispatch,
            reads,
            0,
            cache,
        ) == crate::dataflow::patched(cache, place, reads[0]) && device(
            source,
            dispatch,
            reads,
            1,
            cache,
        ) == crate::dataflow::patched(cache, place, reads[1])
}

/// With an append kernel that puts rows where the step wants them, a finish after a step brings
/// back the step's key as the row behind the tokens that were there, in the key cache; its value
/// as that row of the value cache; and every other row as it was.
pub proof fn law_kv_appended_rows_come_back(
    device: Device,
    sources: KvSourcesModel,
    plan: KvPlan,
    step: KvStepPlan,
    query: Seq<u8>,
    key: Seq<u8>,
    value: Seq<u8>,
    memory: Memory,
    row: int,
)
    requires
        crate::dataflow::keeps_lengths(device),
        crate::device_laws::has_buffers(memory, crate::kv::kv_all_buffers(plan)),
        kv_operands_sized(plan, query, key, value),
        plan.cache_bytes * 2 <= u64::MAX,
        plan.cache_bytes == plan.cache_capacity * (plan.key_value_width * 4),
        step.cache_tokens_before < plan.cache_capacity,
        0 <= row < plan.cache_capacity,
        appends_at(
            device,
            sources.append,
            step.append_dispatch,
            step.append_words,
            step.cache_tokens_before * (plan.key_value_width * 4),
        ),
    ensures
        ({
            let width = plan.key_value_width * 4;
            let mapped = after_kv_finish(
                device,
                sources,
                plan,
                after_kv_step(device, sources, plan, step, query, key, value, memory),
            )[KV_FINISH_READBACK as int];
            let key_cache = mapped.subrange(0, plan.cache_bytes as int);
            let value_cache = mapped.subrange(plan.cache_bytes as int, mapped.len() as int);
            &&& crate::dataflow::range(key_cache, row * width, width) == (if row
                == step.cache_tokens_before {
                key
            } else {
                crate::dataflow::range(memory[KV_KEY_CACHE as int], row * width, width)
            })
            &&& crate::dataflow::range(value_cache, row * width, width) == (if row
                == step.cache_tokens_before {
                value
            } else {
                crate::dataflow::range(memory[KV_VALUE_CACHE as int], row * width, width)
            })
        }),
{
    let width = plan.key_value_width * 4;
    let place = step.cache_tokens_before * width;
    let now = after_kv_step(device, sources, plan, step, query, key, value, memory);
    law_kv_step_attends_over_its_token(device, sources, plan, step, query, key, value, memory);
    law_kv_finish_brings_back_both_caches(device, sources, plan, now);
    let before = step.cache_tokens_before as int;
    let capacity = plan.cache_capacity as int;
    assert(0 <= place && place + width <= plan.cache_bytes) by (nonlinear_arith)
        requires
            place == before * width,
            0 <= before < capacity,
            0 <= width,
            plan.cache_bytes == capacity * width,
    ;
    assert(0 <= row * width && row * width + width <= plan.cache_bytes) by (nonlinear_arith)
        requires
            0 <= row < capacity,
            0 <= width,
            plan.cache_bytes == capacity * width,
    ;
    assert(row < before ==> row * width + width <= place) by (nonlinear_arith)
        requires
            place == before * width,
            0 <= width,
    ;
    assert(before < row ==> place + width <= row * width) by (nonlinear_arith)
        requires
            place == before * width,
            0 <= width,
    ;
    crate::dataflow::lemma_patched_range(memory[KV_KEY_CACHE as int], place, key);
    crate::dataflow::lemma_patched_range(memory[KV_VALUE_CACHE as int], place, value);
}

/// What a step hands back is the attention row, and what a finish hands back is the key cache
/// and, behind it, the value cache.
pub proof fn law_kv_operations_hand_back_their_results(
    device: Device,
    sources: KvSourcesModel,
    plan: KvPlan,
    step: KvStepPlan,
    query: Seq<u8>,
    key: Seq<u8>,
    value: Seq<u8>,
    memory: Memory,
)
    requires
        crate::dataflow::keeps_lengths(device),
        crate::device_laws::has_buffers(memory, crate::kv::kv_all_buffers(plan)),
        kv_operands_sized(plan, query, key, value),
        plan.cache_bytes * 2 <= u64::MAX,
    ensures
        ({
            let stepped = after_kv_step(device, sources, plan, step, query, key, value, memory);
            let row = crate::readback::kv_readbacks(plan, Operation::Step)->Ok_0;
            let caches = crate::readback::kv_readbacks(plan, Operation::Finish)->Ok_0;
            &&& crate::dataflow::brought_back(stepped, row) == seq![
                device(
                    sources.attention,
                    step.attention_dispatch,
                    seq![
                        query,
                        stepped[KV_KEY_CACHE as int],
                        stepped[KV_VALUE_CACHE as int],
                        crate::dataflow::uniform(step.attention_words),
                    ],
                    0,
                    memory[KV_ATTENTION_OUTPUT as int],
                ),
            ]
            &&& crate::dataflow::brought_back(
                after_kv_finish(device, sources, plan, memory),
                caches,
            ) == seq![memory[KV_KEY_CACHE as int] + memory[KV_VALUE_CACHE as int]]
        }),
{
    law_kv_step_attends_over_its_token(device, sources, plan, step, query, key, value, memory);
    law_kv_finish_brings_back_both_caches(device, sources, plan, memory);
    crate::dataflow::lemma_whole();
    let mapped = after_kv_finish(device, sources, plan, memory)[KV_FINISH_READBACK as int];
    assert(mapped =~= mapped.subrange(0, plan.cache_bytes as int) + mapped.subrange(
        plan.cache_bytes as int,
        mapped.len() as int,
    ));
}

/// What a finish hands back comes apart into the key cache and the value cache.
pub proof fn law_kv_finish_hands_back_each_cache(
    device: Device,
    sources: KvSourcesModel,
    plan: KvPlan,
    memory: Memory,
)
    requires
        plan.cache_bytes * 2 <= u64::MAX,
        crate::device_laws::has_buffers(memory, crate::kv::kv_all_buffers(plan)),
    ensures
        crate::readback::kv_readbacks(plan, Operation::Finish) is Ok,
        ({
            let mapped = crate::dataflow::brought_back(
                after_kv_finish(device, sources, plan, memory),
                crate::readback::kv_readbacks(plan, Operation::Finish)->Ok_0,
            );
            &&& mapped.len() == 1
            &&& crate::kv::split_caches(mapped[0], plan) == (
                memory[KV_KEY_CACHE as int],
                memory[KV_VALUE_CACHE as int],
            )
        }),
{
    law_kv_finish_brings_back_both_caches(device, sources, plan, memory);
    crate::dataflow::lemma_whole();
    let mapped = after_kv_finish(device, sources, plan, memory)[KV_FINISH_READBACK as int];
    assert(mapped.subrange(0, mapped.len() as int) =~= mapped);
}

} // verus!
