//! Messages about operations that failed, and about sessions that cannot be used.

use crate::family::{family_noun, Family};
use crate::text::{join2, join3};
use vstd::prelude::*;

verus! {

/// A message with each of a list behind it, from one on, led by the same words.
pub open spec fn each_led(
    message: Seq<char>,
    lead: Seq<char>,
    items: Seq<Seq<char>>,
    index: int,
) -> Seq<char>
    decreases items.len() - index,
{
    if index >= items.len() {
        message
    } else {
        each_led(message + lead + items[index], lead, items, index + 1)
    }
}

/// A message with each of a list behind it in brackets, from one on.
pub open spec fn each_bracketed(message: Seq<char>, items: Seq<Seq<char>>, index: int) -> Seq<char>
    decreases items.len() - index,
{
    if index >= items.len() {
        message
    } else {
        each_bracketed(message + " ["@ + items[index] + "]"@, items, index + 1)
    }
}

fn append_each(message: String, lead: &str, items: &Vec<String>) -> (longer: String)
    ensures
        longer@ == each_led(message@, lead@, crate::text::texts(items@), 0),
{
    let ghost model = crate::text::texts(items@);
    let ghost start = message@;
    let mut text: String = message;
    let mut index: usize = 0;
    while index < items.len()
        invariant
            index <= items.len(),
            model == crate::text::texts(items@),
            each_led(start, lead@, model, 0) == each_led(text@, lead@, model, index as int),
        decreases items.len() - index,
    {
        assert(model[index as int] == items@[index as int]@);
        text.append(lead);
        text.append(items[index].as_str());
        index += 1;
    }
    text
}

/// The message about an operation that failed, with what its error scopes then gave up.
pub open spec fn drained_message(
    error: Seq<char>,
    captures: Seq<Seq<char>>,
    failures: Seq<Seq<char>>,
) -> Seq<char> {
    each_led(
        each_led(error, "; captured WebGPU error: "@, captures, 0),
        "; scope cleanup failure: "@,
        failures,
        0,
    )
}

/// The message about an operation that failed, with what its error scopes then gave up.
pub fn drain_appended_message(error: String, captures: &Vec<String>, failures: &Vec<String>) -> (message:
    String)
    ensures
        message@ == drained_message(
            error@,
            crate::text::texts(captures@),
            crate::text::texts(failures@),
        ),
{
    let captured: String = append_each(error, "; captured WebGPU error: ", captures);
    append_each(captured, "; scope cleanup failure: ", failures)
}

/// The message about an operation whose error scopes gave up errors.
pub open spec fn captured_message(
    family: Family,
    captures: Seq<Seq<char>>,
    failures: Seq<Seq<char>>,
) -> Seq<char> {
    each_led(
        each_bracketed(
            crate::family::noun(family) + " session captured WebGPU errors:"@,
            captures,
            0,
        ),
        "; scope cleanup failure: "@,
        failures,
        0,
    )
}

/// The message about an operation whose error scopes gave up errors.
pub fn captured_failure_message(
    family: Family,
    captures: &Vec<String>,
    failures: &Vec<String>,
) -> (message: String)
    ensures
        message@ == captured_message(
            family,
            crate::text::texts(captures@),
            crate::text::texts(failures@),
        ),
{
    let ghost model = crate::text::texts(captures@);
    let mut text: String = join2(family_noun(family), " session captured WebGPU errors:");
    let ghost start = text@;
    let mut index: usize = 0;
    while index < captures.len()
        invariant
            index <= captures.len(),
            model == crate::text::texts(captures@),
            each_bracketed(start, model, 0) == each_bracketed(text@, model, index as int),
        decreases captures.len() - index,
    {
        assert(model[index as int] == captures@[index as int]@);
        text.append(" [");
        text.append(captures[index].as_str());
        text.append("]");
        index += 1;
    }
    append_each(text, "; scope cleanup failure: ", failures)
}

/// What is wrong with beginning a session: one is poisoned, or one is in use.
pub open spec fn admission_complaint(
    family: Family,
    stored_poisoned: bool,
    busy: bool,
) -> Option<Seq<char>> {
    if stored_poisoned {
        Some(crate::family::noun(family) + " session is terminally poisoned"@)
    } else if busy {
        Some(
            crate::family::noun(family)
                + " session is already active or busy with another operation"@,
        )
    } else {
        None
    }
}

/// Requires that a session can be begun: no stored one is poisoned, none is in use.
pub fn check_admission(family: Family, stored_poisoned: bool, busy: bool) -> (outcome: Result<
    (),
    String,
>)
    ensures
        crate::text::complaint(outcome) == admission_complaint(family, stored_poisoned, busy),
{
    if stored_poisoned {
        return Err(join2(family_noun(family), " session is terminally poisoned"));
    }
    if busy {
        return Err(
            join2(
                family_noun(family),
                " session is already active or busy with another operation",
            ),
        );
    }
    Ok(())
}

/// The flags of a stored session.
#[derive(Clone, Copy, Debug, PartialEq, Eq, Structural)]
pub struct StoredFlags {
    pub poisoned: bool,
    pub ready: bool,
}

/// What a session carries from one operation to the next, beside what is on the device.
#[derive(Clone, Copy, Debug, PartialEq, Eq, Structural)]
pub struct SessionState {
    pub flags: StoredFlags,
    /// The tokens in the caches.
    pub cache_tokens: u32,
}

/// A new session: sound, and not ready before its begin is done.
pub fn new_session_state(cache_tokens: u32) -> (state: SessionState)
    ensures
        !state.flags.poisoned && !state.flags.ready,
        state.cache_tokens == cache_tokens,
{
    SessionState { flags: StoredFlags { poisoned: false, ready: false }, cache_tokens }
}

/// A session whose begin is done.
pub fn ready_state(state: SessionState) -> (ready: SessionState)
    ensures
        ready == (SessionState {
            flags: StoredFlags { poisoned: state.flags.poisoned, ready: true },
            cache_tokens: state.cache_tokens,
        }),
{
    SessionState {
        flags: StoredFlags { poisoned: state.flags.poisoned, ready: true },
        cache_tokens: state.cache_tokens,
    }
}

/// A session that failed.
pub fn poisoned_state(state: SessionState) -> (poisoned: SessionState)
    ensures
        poisoned == (SessionState {
            flags: StoredFlags { poisoned: true, ready: state.flags.ready },
            cache_tokens: state.cache_tokens,
        }),
{
    SessionState {
        flags: StoredFlags { poisoned: true, ready: state.flags.ready },
        cache_tokens: state.cache_tokens,
    }
}

/// A session that is given back by an operation: it has the tokens that the operation leaves
/// where it was advanced, and is poisoned for good where it was poisoned.
pub open spec fn given_back(
    state: SessionState,
    tokens_after: u32,
    poisoned: bool,
    advanced: bool,
) -> SessionState {
    SessionState {
        flags: StoredFlags {
            poisoned: state.flags.poisoned || poisoned,
            ready: state.flags.ready,
        },
        cache_tokens: if advanced {
            tokens_after
        } else {
            state.cache_tokens
        },
    }
}

/// A session that is given back by an operation.
pub fn restored_state(
    state: SessionState,
    tokens_after: u32,
    poisoned: bool,
    advanced: bool,
) -> (restored: SessionState)
    ensures
        restored == given_back(state, tokens_after, poisoned, advanced),
{
    let cache_tokens: u32 = if advanced {
        tokens_after
    } else {
        state.cache_tokens
    };
    SessionState {
        flags: StoredFlags {
            poisoned: state.flags.poisoned || poisoned,
            ready: state.flags.ready,
        },
        cache_tokens,
    }
}

/// What is wrong with using the stored session.
pub open spec fn acquisition_complaint(
    family: Family,
    stored: Option<StoredFlags>,
) -> Option<Seq<char>> {
    match stored {
        None => Some("no ready "@ + crate::family::noun(family) + " session"@),
        Some(flags) => if flags.poisoned {
            Some(crate::family::noun(family) + " session is terminally poisoned"@)
        } else if !flags.ready {
            Some("no ready "@ + crate::family::noun(family) + " session"@)
        } else {
            None
        },
    }
}

/// Requires that the stored session can be used: there is one, sound and ready.
pub fn check_acquisition(family: Family, stored: Option<StoredFlags>) -> (outcome: Result<
    (),
    String,
>)
    ensures
        crate::text::complaint(outcome) == acquisition_complaint(family, stored),
{
    match stored {
        None => Err(join3("no ready ", family_noun(family), " session")),
        Some(flags) => if flags.poisoned {
            Err(join2(family_noun(family), " session is terminally poisoned"))
        } else if !flags.ready {
            Err(join3("no ready ", family_noun(family), " session"))
        } else {
            Ok(())
        },
    }
}

/// The message that the stored session could not be leased.
pub fn lease_failure(family: Family) -> (message: String)
    ensures
        message@ == "no stored "@ + crate::family::noun(family) + " session"@,
{
    join3("no stored ", family_noun(family), " session")
}

/// A poisoned session admits nothing: neither a begin nor any use of it.
pub proof fn law_poison_is_terminal(family: Family, flags: StoredFlags, busy: bool)
    requires
        flags.poisoned,
    ensures
        admission_complaint(family, flags.poisoned, busy) is Some,
        acquisition_complaint(family, Some(flags)) is Some,
{
}

/// A poisoned session stays poisoned, whatever gives it back.
pub proof fn law_poison_stays(
    state: SessionState,
    tokens_after: u32,
    poisoned: bool,
    advanced: bool,
)
    requires
        state.flags.poisoned,
    ensures
        given_back(state, tokens_after, poisoned, advanced).flags.poisoned,
{
}

} // verus!
