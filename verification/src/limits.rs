//! What a device must be able to do for a session.

use crate::family::{family_noun, Family};
use crate::text::{join2, join3};
use vstd::prelude::*;

verus! {

/// The limits of a device that sessions depend on.
#[derive(Clone, Copy, Debug)]
pub struct DeviceLimits {
    pub max_storage_buffers_per_shader_stage: u32,
    pub max_storage_buffer_binding_size: u64,
    pub max_buffer_size: u64,
    pub min_storage_buffer_offset_alignment: u32,
    pub max_compute_workgroups_per_dimension: u32,
}

/// What a dispatch planner says of each invocation of a session, in order: nothing, or how
/// it exceeds the device.
pub open spec fn verdict_texts(verdicts: Seq<Option<String>>) -> Seq<Option<Seq<char>>> {
    verdicts.map_values(
        |verdict: Option<String>|
            match verdict {
                Some(message) => Some(message@),
                None => None::<Seq<char>>,
            },
    )
}

/// The first invocation, from one on, that exceeds the device.
pub open spec fn dispatch_complaint_from(
    family: Family,
    verdicts: Seq<Option<Seq<char>>>,
    index: int,
) -> Option<Seq<char>>
    decreases verdicts.len() - index,
{
    if index >= verdicts.len() {
        None
    } else {
        match verdicts[index] {
            Some(message) => Some(
                crate::family::noun(family) + " session exceeds adapter dispatch limits: "@
                    + message,
            ),
            None => dispatch_complaint_from(family, verdicts, index + 1),
        }
    }
}

/// Requires every invocation of a session to be inside the dispatch limits of the device.
pub fn require_dispatches(family: Family, verdicts: &Vec<Option<String>>) -> (outcome: Result<
    (),
    String,
>)
    ensures
        crate::text::complaint(outcome) == dispatch_complaint_from(
            family,
            verdict_texts(verdicts@),
            0,
        ),
{
    let ghost texts = verdict_texts(verdicts@);
    let mut index: usize = 0;
    while index < verdicts.len()
        invariant
            index <= verdicts.len(),
            texts == verdict_texts(verdicts@),
            dispatch_complaint_from(family, texts, 0) == dispatch_complaint_from(
                family,
                texts,
                index as int,
            ),
        decreases verdicts.len() - index,
    {
        match &verdicts[index] {
            Some(message) => {
                assert(texts[index as int] == Some(message@));
                return Err(
                    join3(
                        family_noun(family),
                        " session exceeds adapter dispatch limits: ",
                        message.as_str(),
                    ),
                );
            },
            None => {
                assert(texts[index as int] == None::<Seq<char>>);
            },
        }
        index += 1;
    }
    Ok(())
}

/// Named byte sizes as plain data.
pub open spec fn named_sizes(sizes: Seq<(&str, u64)>) -> Seq<(Seq<char>, u64)> {
    sizes.map_values(|pair: (&str, u64)| (pair.0@, pair.1))
}

/// The first named size, from one on, that is above a limit on bindings.
pub open spec fn binding_complaint_from(
    sizes: Seq<(Seq<char>, u64)>,
    limit: u64,
    index: int,
) -> Option<Seq<char>>
    decreases sizes.len() - index,
{
    if index >= sizes.len() {
        None
    } else if sizes[index].1 > limit {
        Some(sizes[index].0 + " exceeds the adapter storage buffer binding limit"@)
    } else {
        binding_complaint_from(sizes, limit, index + 1)
    }
}

/// Requires every named size to be within a limit on bindings.
pub fn require_bindings(sizes: &Vec<(&'static str, u64)>, limit: u64) -> (outcome: Result<
    (),
    String,
>)
    ensures
        crate::text::complaint(outcome) == binding_complaint_from(named_sizes(sizes@), limit, 0),
{
    let ghost model = named_sizes(sizes@);
    let mut index: usize = 0;
    while index < sizes.len()
        invariant
            index <= sizes.len(),
            model == named_sizes(sizes@),
            binding_complaint_from(model, limit, 0) == binding_complaint_from(
                model,
                limit,
                index as int,
            ),
        decreases sizes.len() - index,
    {
        assert(model[index as int] == (sizes@[index as int].0@, sizes@[index as int].1));
        if sizes[index].1 > limit {
            return Err(
                join2(
                    sizes[index].0,
                    " exceeds the adapter storage buffer binding limit",
                ),
            );
        }
        index += 1;
    }
    Ok(())
}

} // verus!
