//! What the half-precision weight probe does to the bytes on a device.

use crate::dataflow::{Device, Setup};
use crate::device_laws::Memory;
use crate::gpu::{BufferPlan, CommandModel, WriteModel};
use crate::probe::{
    ProjectionTiles, PROBE_GEMV_MATRIX_F16, PROBE_GEMV_OUTPUT, PROBE_GEMV_READBACK,
    PROBE_GEMV_UNIFORM, PROBE_GEMV_VECTOR, PROBE_LINEAR_BIAS, PROBE_LINEAR_INPUT,
    PROBE_LINEAR_INPUT_MAJOR_OUTPUT, PROBE_LINEAR_INPUT_MAJOR_READBACK,
    PROBE_LINEAR_INPUT_MAJOR_UNIFORM, PROBE_LINEAR_INPUT_MAJOR_WEIGHT_F16, PROBE_LINEAR_OUTPUT,
    PROBE_LINEAR_READBACK, PROBE_LINEAR_UNIFORM, PROBE_LINEAR_WEIGHT_F16, PROBE_RMS_INPUT,
    PROBE_RMS_OUTPUT, PROBE_RMS_READBACK, PROBE_RMS_UNIFORM, PROBE_RMS_WEIGHT_F16,
    PROBE_VISION_BIAS, PROBE_VISION_INPUT, PROBE_VISION_OUTPUT, PROBE_VISION_READBACK,
    PROBE_VISION_UNIFORM, PROBE_VISION_WEIGHT_F32,
};
use crate::probe_parse::WeightProbeModel;
use crate::stack_resources::{
    PIPELINE_GEMV_TILED_F16, PIPELINE_PROJECTION, PIPELINE_PROJECTION_F16, PIPELINE_RMS_NORM_F16,
};
use crate::stack_sources::StackSourcesModel;
use vstd::prelude::*;

verus! {

/// What the passes of a probe run on.
pub open spec fn probe_setup(
    device: Device,
    sources: StackSourcesModel,
    probe: WeightProbeModel,
) -> Setup {
    Setup {
        device,
        shaders: |pipeline: usize|
            crate::dataflow::placed_source(crate::probe::created_pipelines(sources), pipeline),
        layouts: |layout: usize| crate::stack_resources::layout_entries(layout),
        groups: crate::probe::probe_bind_groups(probe),
    }
}

/// Whether a number of groups of items is the least that covers all items.
pub open spec fn covers(groups: u32, unit: u32, items: u32) -> bool {
    &&& items <= groups * unit
    &&& groups == 0 || (groups - 1) * unit < items
}

/// A quotient that is rounded up is the least number of groups that covers all items.
proof fn lemma_ceiling_covers(items: u32, unit: u32)
    requires
        unit > 0,
    ensures
        covers(crate::probe::ceiling(items, unit), unit, items),
{
    let sum = items + unit - 1;
    let count = sum / unit as int;
    vstd::arithmetic::div_mod::lemma_fundamental_div_mod(sum, unit as int);
    assert(0 <= count <= items) by (nonlinear_arith)
        requires
            unit > 0,
            sum == items + unit - 1,
            sum == unit * count + sum % unit as int,
            0 <= sum % (unit as int) < unit,
    ;
    assert(items <= count * unit) by (nonlinear_arith)
        requires
            sum == items + unit - 1,
            sum == unit * count + sum % unit as int,
            0 <= sum % (unit as int) < unit,
    ;
    assert(count == 0 || (count - 1) * unit < items) by (nonlinear_arith)
        requires
            sum == items + unit - 1,
            sum == unit * count + sum % unit as int,
            0 <= sum % (unit as int) < unit,
    ;
}

/// The dispatch of a command.
pub open spec fn dispatch_of(command: CommandModel) -> [u32; 3] {
    command->dispatch
}

/// Every pass of a probe covers its outputs with workgroups, and with no more than it needs: the
/// norm its rows, the product its rows, the projections their outputs and then their tokens.
pub proof fn law_probe_dispatches_cover_the_outputs(
    probe: WeightProbeModel,
    tiles: ProjectionTiles,
    commands: Seq<CommandModel>,
)
    requires
        tiles.half_columns > 0,
        tiles.tile > 0,
        crate::probe::probe_commands(commands, probe, tiles),
    ensures
        covers(dispatch_of(commands[0])@[0], 64, probe.rms.rows),
        covers(dispatch_of(commands[1])@[0], 8, probe.gemv.rows),
        covers(dispatch_of(commands[2])@[0], tiles.half_columns, probe.linear.output_width),
        covers(dispatch_of(commands[2])@[1], tiles.tile, probe.linear.tokens),
        covers(
            dispatch_of(commands[3])@[0],
            tiles.half_columns,
            probe.linear_input_major.output_width,
        ),
        covers(dispatch_of(commands[3])@[1], tiles.tile, probe.linear_input_major.tokens),
        covers(dispatch_of(commands[4])@[0], tiles.tile, probe.vision.output_width),
        covers(dispatch_of(commands[4])@[1], tiles.tile, probe.vision.patches),
        dispatch_of(commands[0])@.skip(1) == seq![1u32, 1],
        dispatch_of(commands[1])@.skip(1) == seq![1u32, 1],
        dispatch_of(commands[2])@.skip(2) == seq![1u32],
        dispatch_of(commands[3])@.skip(2) == seq![1u32],
        dispatch_of(commands[4])@.skip(2) == seq![1u32],
{
    lemma_ceiling_covers(probe.rms.rows, 64);
    lemma_ceiling_covers(probe.gemv.rows, 8);
    lemma_ceiling_covers(probe.linear.output_width, tiles.half_columns);
    lemma_ceiling_covers(probe.linear.tokens, tiles.tile);
    lemma_ceiling_covers(probe.linear_input_major.output_width, tiles.half_columns);
    lemma_ceiling_covers(probe.linear_input_major.tokens, tiles.tile);
    lemma_ceiling_covers(probe.vision.output_width, tiles.tile);
    lemma_ceiling_covers(probe.vision.patches, tiles.tile);
    let dispatches = crate::probe::probe_dispatches(probe, tiles);
    assert(dispatch_of(commands[0])@ == dispatches[0]);
    assert(dispatch_of(commands[1])@ == dispatches[1]);
    assert(dispatch_of(commands[2])@ == dispatches[2]);
    assert(dispatch_of(commands[3])@ == dispatches[3]);
    assert(dispatch_of(commands[4])@ == dispatches[4]);
    assert(dispatches[0].skip(1) =~= seq![1u32, 1]);
    assert(dispatches[1].skip(1) =~= seq![1u32, 1]);
    assert(dispatches[2].skip(2) =~= seq![1u32]);
    assert(dispatches[3].skip(2) =~= seq![1u32]);
    assert(dispatches[4].skip(2) =~= seq![1u32]);
}

/// The bytes of the operands of a probe, once they are written.
spec fn operands_written(probe: WeightProbeModel, memory: Memory) -> bool {
    let singles = |values: Seq<u32>| crate::words::bytes_of_words32(values);
    let halves = |values: Seq<u16>| crate::words::bytes_of_words16(values);
    let major = probe.linear_input_major;
    &&& memory[PROBE_RMS_INPUT as int] == singles(probe.rms.input)
    &&& memory[PROBE_RMS_WEIGHT_F16 as int] == halves(probe.rms.weight_f16)
    &&& memory[PROBE_RMS_UNIFORM as int] == singles(
        seq![probe.rms.rows, probe.rms.width, probe.rms.epsilon, 0u32],
    )
    &&& memory[PROBE_GEMV_MATRIX_F16 as int] == halves(probe.gemv.matrix_f16)
    &&& memory[PROBE_GEMV_VECTOR as int] == singles(probe.gemv.vector)
    &&& memory[PROBE_GEMV_UNIFORM as int] == singles(
        seq![probe.gemv.rows, probe.gemv.columns, 0u32, 0u32],
    )
    &&& memory[PROBE_LINEAR_INPUT as int] == singles(probe.linear.input)
    &&& memory[PROBE_LINEAR_WEIGHT_F16 as int] == halves(probe.linear.weight_f16)
    &&& memory[PROBE_LINEAR_BIAS as int] == singles(probe.linear.bias)
    &&& memory[PROBE_LINEAR_UNIFORM as int] == singles(
        seq![probe.linear.tokens, probe.linear.input_width, probe.linear.output_width, 0u32],
    )
    &&& memory[PROBE_LINEAR_INPUT_MAJOR_WEIGHT_F16 as int] == halves(major.weight_f16)
    &&& memory[PROBE_LINEAR_INPUT_MAJOR_UNIFORM as int] == singles(
        seq![major.tokens, major.input_width, major.output_width, 1u32],
    )
    &&& memory[PROBE_VISION_INPUT as int] == singles(probe.vision.input)
    &&& memory[PROBE_VISION_WEIGHT_F32 as int] == singles(probe.vision.weight)
    &&& memory[PROBE_VISION_BIAS as int] == singles(probe.vision.bias)
    &&& memory[PROBE_VISION_UNIFORM as int] == singles(
        seq![probe.vision.patches, probe.vision.input_width, probe.vision.output_width, 0u32],
    )
}

proof fn lemma_probe_written(probe: WeightProbeModel, memory: Memory)
    requires
        crate::probe::operands_countable(probe),
        crate::device_laws::has_buffers(memory, crate::probe::probe_buffers(probe)),
    ensures
        ({
            let writes = crate::probe::probe_writes(probe);
            let now = crate::dataflow::written(writes, memory, writes.len() as int);
            &&& crate::device_laws::has_buffers(now, crate::probe::probe_buffers(probe))
            &&& operands_written(probe, now)
            &&& now[PROBE_RMS_OUTPUT as int] == memory[PROBE_RMS_OUTPUT as int]
            &&& now[PROBE_GEMV_OUTPUT as int] == memory[PROBE_GEMV_OUTPUT as int]
            &&& now[PROBE_LINEAR_OUTPUT as int] == memory[PROBE_LINEAR_OUTPUT as int]
            &&& now[PROBE_LINEAR_INPUT_MAJOR_OUTPUT as int]
                == memory[PROBE_LINEAR_INPUT_MAJOR_OUTPUT as int]
            &&& now[PROBE_VISION_OUTPUT as int] == memory[PROBE_VISION_OUTPUT as int]
        }),
{
    let writes = crate::probe::probe_writes(probe);
    crate::dataflow::lemma_whole();
    assert forall|i: int, j: int| 0 <= i < j < writes.len() implies (#[trigger] writes[i]).buffer
        != (#[trigger] writes[j]).buffer by {
    }
    crate::dataflow::lemma_written(writes, memory, 16);
    let now = crate::dataflow::written(writes, memory, 16);
    assert forall|i: int| 0 <= i < 16 implies now[(#[trigger] writes[i]).buffer as int]
        == writes[i].bytes by {
        assert(writes[i].bytes.len() == memory[writes[i].buffer as int].len());
    }
    assert(now[writes[0].buffer as int] == writes[0].bytes);
    assert(now[writes[1].buffer as int] == writes[1].bytes);
    assert(now[writes[2].buffer as int] == writes[2].bytes);
    assert(now[writes[3].buffer as int] == writes[3].bytes);
    assert(now[writes[4].buffer as int] == writes[4].bytes);
    assert(now[writes[5].buffer as int] == writes[5].bytes);
    assert(now[writes[6].buffer as int] == writes[6].bytes);
    assert(now[writes[7].buffer as int] == writes[7].bytes);
    assert(now[writes[8].buffer as int] == writes[8].bytes);
    assert(now[writes[9].buffer as int] == writes[9].bytes);
    assert(now[writes[10].buffer as int] == writes[10].bytes);
    assert(now[writes[11].buffer as int] == writes[11].bytes);
    assert(now[writes[12].buffer as int] == writes[12].bytes);
    assert(now[writes[13].buffer as int] == writes[13].bytes);
    assert(now[writes[14].buffer as int] == writes[14].bytes);
    assert(now[writes[15].buffer as int] == writes[15].bytes);
}

/// What a probe reads back is what each of its kernels makes of its own operands and uniform words:
/// the norm of the rows and their weights, the product of matrix and vector, the projection of the
/// linear input twice, with its weights one output and one input after the other, and the
/// projection of the patches with single-precision weights.
#[verifier::rlimit(60)]
#[verifier::spinoff_prover]
pub proof fn law_probe_runs_every_kernel_on_its_operands(
    device: Device,
    sources: StackSourcesModel,
    probe: WeightProbeModel,
    tiles: ProjectionTiles,
    commands: Seq<CommandModel>,
    memory: Memory,
)
    requires
        crate::dataflow::keeps_lengths(device),
        crate::probe::operands_countable(probe),
        crate::device_laws::has_buffers(memory, crate::probe::probe_buffers(probe)),
        crate::probe::probe_commands(commands, probe, tiles),
    ensures
        ({
            let now = crate::dataflow::performed(
                probe_setup(device, sources, probe),
                crate::probe::probe_writes(probe),
                commands,
                memory,
            );
            let singles = |values: Seq<u32>| crate::words::bytes_of_words32(values);
            let halves = |values: Seq<u16>| crate::words::bytes_of_words16(values);
            let major = probe.linear_input_major;
            &&& now[PROBE_RMS_READBACK as int] == device(
                sources.rms_norm_f16_weights,
                dispatch_of(commands[0]),
                seq![
                    singles(probe.rms.input),
                    halves(probe.rms.weight_f16),
                    singles(seq![probe.rms.rows, probe.rms.width, probe.rms.epsilon, 0u32]),
                ],
                0,
                memory[PROBE_RMS_OUTPUT as int],
            )
            &&& now[PROBE_GEMV_READBACK as int] == device(
                sources.gemv_tiled_f16_weights,
                dispatch_of(commands[1]),
                seq![
                    halves(probe.gemv.matrix_f16),
                    singles(probe.gemv.vector),
                    singles(seq![probe.gemv.rows, probe.gemv.columns, 0u32, 0u32]),
                ],
                0,
                memory[PROBE_GEMV_OUTPUT as int],
            )
            &&& now[PROBE_LINEAR_READBACK as int] == device(
                sources.linear_projection_f16_weights,
                dispatch_of(commands[2]),
                seq![
                    singles(probe.linear.input),
                    halves(probe.linear.weight_f16),
                    singles(probe.linear.bias),
                    singles(
                        seq![
                            probe.linear.tokens,
                            probe.linear.input_width,
                            probe.linear.output_width,
                            0u32,
                        ],
                    ),
                ],
                0,
                memory[PROBE_LINEAR_OUTPUT as int],
            )
            &&& now[PROBE_LINEAR_INPUT_MAJOR_READBACK as int] == device(
                sources.linear_projection_f16_weights,
                dispatch_of(commands[3]),
                seq![
                    singles(probe.linear.input),
                    halves(major.weight_f16),
                    singles(probe.linear.bias),
                    singles(seq![major.tokens, major.input_width, major.output_width, 1u32]),
                ],
                0,
                memory[PROBE_LINEAR_INPUT_MAJOR_OUTPUT as int],
            )
            &&& now[PROBE_VISION_READBACK as int] == device(
                sources.projection,
                dispatch_of(commands[4]),
                seq![
                    singles(probe.vision.input),
                    singles(probe.vision.weight),
                    singles(probe.vision.bias),
                    singles(
                        seq![
                            probe.vision.patches,
                            probe.vision.input_width,
                            probe.vision.output_width,
                            0u32,
                        ],
                    ),
                ],
                0,
                memory[PROBE_VISION_OUTPUT as int],
            )
        }),
{
    let setup = probe_setup(device, sources, probe);
    let writes = crate::probe::probe_writes(probe);
    let made = crate::probe::created_pipelines(sources);
    let copies = crate::probe::probe_copies(probe);
    assert(made[0].place == PIPELINE_RMS_NORM_F16);
    assert(crate::dataflow::placed_source(made, PIPELINE_RMS_NORM_F16)
        == sources.rms_norm_f16_weights) by {
        lemma_probe_source(sources, 0);
    }
    assert(crate::dataflow::placed_source(made, PIPELINE_GEMV_TILED_F16)
        == sources.gemv_tiled_f16_weights) by {
        lemma_probe_source(sources, 1);
    }
    assert(crate::dataflow::placed_source(made, PIPELINE_PROJECTION_F16)
        == sources.linear_projection_f16_weights) by {
        lemma_probe_source(sources, 2);
    }
    assert(crate::dataflow::placed_source(made, PIPELINE_PROJECTION) == sources.projection) by {
        lemma_probe_source(sources, 3);
    }
    lemma_probe_written(probe, memory);
    crate::dataflow::lemma_whole();
    let m0 = crate::dataflow::written(writes, memory, writes.len() as int);
    let m1 = crate::dataflow::after(setup, commands, m0, 1);
    let m2 = crate::dataflow::after(setup, commands, m0, 2);
    let m3 = crate::dataflow::after(setup, commands, m0, 3);
    let m4 = crate::dataflow::after(setup, commands, m0, 4);
    let m5 = crate::dataflow::after(setup, commands, m0, 5);
    let m6 = crate::dataflow::after(setup, commands, m0, 6);
    let m7 = crate::dataflow::after(setup, commands, m0, 7);
    let m8 = crate::dataflow::after(setup, commands, m0, 8);
    let m9 = crate::dataflow::after(setup, commands, m0, 9);
    let m10 = crate::dataflow::after(setup, commands, m0, 10);
    assert(crate::dataflow::after(setup, commands, m0, 0) == m0);
    let d0 = dispatch_of(commands[0]);
    let d1 = dispatch_of(commands[1]);
    let d2 = dispatch_of(commands[2]);
    let d3 = dispatch_of(commands[3]);
    let d4 = dispatch_of(commands[4]);
    let pair = seq![0u64, 0u64];
    let one = seq![0u64];
    assert(commands[0] == crate::gpu::pass_model(PIPELINE_RMS_NORM_F16, 0, d0, pair));
    assert(commands[1] == crate::gpu::pass_model(PIPELINE_GEMV_TILED_F16, 1, d1, one));
    assert(commands[2] == crate::gpu::pass_model(PIPELINE_PROJECTION_F16, 2, d2, one));
    assert(commands[3] == crate::gpu::pass_model(PIPELINE_PROJECTION_F16, 3, d3, one));
    assert(commands[4] == crate::gpu::pass_model(PIPELINE_PROJECTION, 4, d4, one));
    assert forall|i: int| 0 <= i < 5 implies commands[5 + i] == #[trigger] copies[i] by {
        assert(commands.subrange(5, 10)[i] == commands[5 + i]);
    }
    let rms = device(
        sources.rms_norm_f16_weights,
        d0,
        seq![
            m0[PROBE_RMS_INPUT as int],
            m0[PROBE_RMS_WEIGHT_F16 as int],
            m0[PROBE_RMS_UNIFORM as int],
        ],
        0,
        m0[PROBE_RMS_OUTPUT as int],
    );
    assert(m1 == m0.update(PROBE_RMS_OUTPUT as int, rms)) by {
        crate::stack_flow::lemma_entry_offsets(pair);
        crate::dataflow::lemma_third_of_four(setup, PIPELINE_RMS_NORM_F16, 0, d0, pair, m0);
    }
    let gemv = device(
        sources.gemv_tiled_f16_weights,
        d1,
        seq![
            m0[PROBE_GEMV_MATRIX_F16 as int],
            m0[PROBE_GEMV_VECTOR as int],
            m0[PROBE_GEMV_UNIFORM as int],
        ],
        0,
        m0[PROBE_GEMV_OUTPUT as int],
    );
    assert(m2 == m1.update(PROBE_GEMV_OUTPUT as int, gemv)) by {
        crate::stack_flow::lemma_entry_offsets(one);
        crate::dataflow::lemma_third_of_four(setup, PIPELINE_GEMV_TILED_F16, 1, d1, one, m1);
    }
    let linear = device(
        sources.linear_projection_f16_weights,
        d2,
        seq![
            m0[PROBE_LINEAR_INPUT as int],
            m0[PROBE_LINEAR_WEIGHT_F16 as int],
            m0[PROBE_LINEAR_BIAS as int],
            m0[PROBE_LINEAR_UNIFORM as int],
        ],
        0,
        m0[PROBE_LINEAR_OUTPUT as int],
    );
    assert(m3 == m2.update(PROBE_LINEAR_OUTPUT as int, linear)) by {
        crate::stack_flow::lemma_entry_offsets(one);
        crate::dataflow::lemma_fourth_of_five(setup, PIPELINE_PROJECTION_F16, 2, d2, one, m2);
    }
    let major = device(
        sources.linear_projection_f16_weights,
        d3,
        seq![
            m0[PROBE_LINEAR_INPUT as int],
            m0[PROBE_LINEAR_INPUT_MAJOR_WEIGHT_F16 as int],
            m0[PROBE_LINEAR_BIAS as int],
            m0[PROBE_LINEAR_INPUT_MAJOR_UNIFORM as int],
        ],
        0,
        m0[PROBE_LINEAR_INPUT_MAJOR_OUTPUT as int],
    );
    assert(m4 == m3.update(PROBE_LINEAR_INPUT_MAJOR_OUTPUT as int, major)) by {
        crate::stack_flow::lemma_entry_offsets(one);
        crate::dataflow::lemma_fourth_of_five(setup, PIPELINE_PROJECTION_F16, 3, d3, one, m3);
    }
    let vision = device(
        sources.projection,
        d4,
        seq![
            m0[PROBE_VISION_INPUT as int],
            m0[PROBE_VISION_WEIGHT_F32 as int],
            m0[PROBE_VISION_BIAS as int],
            m0[PROBE_VISION_UNIFORM as int],
        ],
        0,
        m0[PROBE_VISION_OUTPUT as int],
    );
    assert(m5 == m4.update(PROBE_VISION_OUTPUT as int, vision)) by {
        crate::stack_flow::lemma_entry_offsets(one);
        crate::dataflow::lemma_fourth_of_five(setup, PIPELINE_PROJECTION, 4, d4, one, m4);
    }
    assert(commands[5] == copies[0] && commands[6] == copies[1] && commands[7] == copies[2]
        && commands[8] == copies[3] && commands[9] == copies[4]);
    assert(m6 == m5.update(PROBE_RMS_READBACK as int, rms));
    assert(m7 == m6.update(PROBE_GEMV_READBACK as int, gemv));
    assert(m8 == m7.update(PROBE_LINEAR_READBACK as int, linear));
    assert(m9 == m8.update(PROBE_LINEAR_INPUT_MAJOR_READBACK as int, major));
    assert(m10 == m9.update(PROBE_VISION_READBACK as int, vision));
}

/// The source of a pipeline of a probe.
proof fn lemma_probe_source(sources: StackSourcesModel, index: int)
    requires
        0 <= index < 4,
    ensures
        ({
            let made = crate::probe::created_pipelines(sources);
            crate::dataflow::placed_source(made, made[index].place) == made[index].source
        }),
{
    let made = crate::probe::created_pipelines(sources);
    let place = made[index].place;
    let found = choose|i: int| 0 <= i < made.len() && (#[trigger] made[i]).place == place;
    assert(made[index].place == place);
    assert(found == index);
}

} // verus!
