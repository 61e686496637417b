//! Shader sources: their canonical texts, overrides, digests and JSON listing.

use crate::digest::{blake3_hex, source_blake3};
use crate::family::Family;
use crate::json::{json_text, json_to_string, JsonTree};
use crate::text::{join2, join3, join4};
use vstd::prelude::*;

verus! {

/// The shader text of a canonical kernel, or the message that it is missing.
pub open spec fn canonical_outcome(module: Option<Seq<char>>, kernel: Seq<char>) -> Result<
    Seq<char>,
    Seq<char>,
> {
    match module {
        Some(source) => Ok(source),
        None => Err("canonical "@ + kernel + " kernel is missing"@),
    }
}

/// The message about the first kernel of a list, from one on, whose module was not found.
pub open spec fn first_absent(kernels: Seq<(Seq<char>, bool)>, index: int) -> Option<Seq<char>>
    decreases kernels.len() - index,
{
    if index >= kernels.len() {
        None
    } else if !kernels[index].1 {
        Some("canonical "@ + kernels[index].0 + " kernel is missing"@)
    } else {
        first_absent(kernels, index + 1)
    }
}

/// An optional string as characters.
pub open spec fn option_text(text: Option<String>) -> Option<Seq<char>> {
    match text {
        Some(string) => Some(string@),
        None => None,
    }
}

/// The shader text of a canonical kernel.
pub fn canonical_source(module: Option<String>, kernel: &str) -> (source: Result<String, String>)
    ensures
        crate::text::said_text(source) == canonical_outcome(option_text(module), kernel@),
{
    match module {
        Some(source) => Ok(source),
        None => Err(join3("canonical ", kernel, " kernel is missing")),
    }
}

/// How messages name the shaders of a family.
pub open spec fn shader_noun(family: Family) -> Seq<char> {
    match family {
        Family::Kv => "decoder"@,
        Family::Layer => "decoder layer"@,
        Family::Stack => "decoder stack"@,
    }
}

fn shader_subject(family: Family) -> (subject: &'static str)
    ensures
        subject@ == shader_noun(family),
{
    match family {
        Family::Kv => "decoder",
        Family::Layer => "decoder layer",
        Family::Stack => "decoder stack",
    }
}

/// What is wrong with a request to replace the source of a kernel.
pub open spec fn override_complaint(
    family: Family,
    kernels: Seq<Seq<char>>,
    kernel: Seq<char>,
    source: Seq<char>,
) -> Option<Seq<char>> {
    if !kernels.contains(kernel) {
        Some("unknown "@ + shader_noun(family) + " shader override kernel: "@ + kernel)
    } else if source.len() == 0 {
        Some(shader_noun(family) + " shader override source must not be empty"@)
    } else {
        None
    }
}

/// Requires a request to replace a known kernel with a source that is not empty.
pub fn require_override(family: Family, kernels: &[&str], kernel: &str, source: &str) -> (outcome:
    Result<(), String>)
    ensures
        crate::text::complaint(outcome) == override_complaint(
            family,
            crate::text::names(kernels@),
            kernel@,
            source@,
        ),
{
    if !crate::text::listed(kernels, kernel) {
        return Err(
            join4("unknown ", shader_subject(family), " shader override kernel: ", kernel),
        );
    }
    if source.is_empty() {
        return Err(
            join2(shader_subject(family), " shader override source must not be empty"),
        );
    }
    Ok(())
}

/// A shader source to list.
#[derive(Clone, Copy, Debug)]
pub struct ListedSource<'a> {
    /// The kernel that the source implements.
    pub kernel: &'static str,
    /// How messages name the kernel.
    pub label: &'static str,
    pub source: &'a str,
}

/// A shader source to list, as plain data.
pub struct ListedModel {
    pub kernel: Seq<char>,
    pub label: Seq<char>,
    pub source: Seq<char>,
}

/// A shader source to list, as plain data.
pub open spec fn listed_model(listed: ListedSource<'_>) -> ListedModel {
    ListedModel { kernel: listed.kernel@, label: listed.label@, source: listed.source@ }
}

/// Shader sources to list, as plain data.
pub open spec fn listed_models(listed: Seq<ListedSource<'_>>) -> Seq<ListedModel> {
    listed.map_values(|source: ListedSource<'_>| listed_model(source))
}

/// A shader source to list.
pub fn listed_source<'a>(kernel: &'static str, label: &'static str, source: &'a str) -> (listed:
    ListedSource<'a>)
    ensures
        listed_model(listed) == (ListedModel { kernel: kernel@, label: label@, source: source@ }),
{
    ListedSource { kernel, label, source }
}

/// The JSON strings of sources from one of them on, or the first that has none.
pub open spec fn quotes_from(
    family: Family,
    listed: Seq<ListedModel>,
    index: int,
    read: Seq<Seq<char>>,
) -> Result<Seq<Seq<char>>, Seq<char>>
    decreases listed.len() - index,
{
    if index >= listed.len() {
        Ok(read)
    } else {
        match crate::json::rendered_json(JsonTree::Text(listed[index].source)) {
            Err(message) => Err(
                "cannot serialize "@ + shader_noun(family) + listed[index].label + " source: "@
                    + message,
            ),
            Ok(quoted) => quotes_from(family, listed, index + 1, read.push(quoted)),
        }
    }
}

fn quote_sources(family: Family, listed: &Vec<ListedSource<'_>>) -> (quotes: Result<
    Vec<String>,
    String,
>)
    ensures
        (match quotes {
            Ok(found) => Ok(crate::text::texts(found@)),
            Err(message) => Err(message@),
        }) == quotes_from(family, listed_models(listed@), 0, Seq::empty()),
        quotes matches Ok(found) && found.len() == listed.len(),
{
    let ghost models = listed_models(listed@);
    let mut quotes: Vec<String> = Vec::new();
    let mut index: usize = 0;
    assert(crate::text::texts(quotes@) =~= Seq::<Seq<char>>::empty());
    while index < listed.len()
        invariant
            index <= listed.len(),
            quotes.len() == index,
            models == listed_models(listed@),
            quotes_from(family, models, 0, Seq::empty()) == quotes_from(
                family,
                models,
                index as int,
                crate::text::texts(quotes@),
            ),
        decreases listed.len() - index,
    {
        assert(models[index as int] == listed_model(listed@[index as int]));
        let value: serde_json::Value = json_text(listed[index].source);
        let ghost before = quotes@;
        match json_to_string(&value) {
            Ok(quoted) => {
                quotes.push(quoted);
                assert(crate::text::texts(quotes@) =~= crate::text::texts(before).push(quoted@));
            },
            Err(message) => {
                return Err(
                    crate::text::join5(
                        "cannot serialize ",
                        shader_subject(family),
                        listed[index].label,
                        " source: ",
                        message.as_str(),
                    ),
                );
            },
        }
        index += 1;
    }
    Ok(quotes)
}

/// The members of a JSON object that gives each kernel of a list a value, from one on.
pub open spec fn kernel_members_from(
    listed: Seq<ListedModel>,
    values: Seq<Seq<char>>,
    order: Seq<usize>,
    index: int,
    written: Seq<char>,
) -> Seq<char>
    decreases order.len() - index,
{
    if index >= order.len() {
        written
    } else {
        let comma = if index == 0 {
            ""@
        } else {
            ","@
        };
        kernel_members_from(
            listed,
            values,
            order,
            index + 1,
            written + comma + "\""@ + listed[order[index] as int].kernel + "\":"@
                + values[order[index] as int],
        )
    }
}

fn kernel_members(listed: &Vec<ListedSource<'_>>, values: &Vec<String>, order: &Vec<usize>) -> (text:
    String)
    requires
        values.len() == listed.len(),
        forall|i: int| 0 <= i < order.len() ==> (#[trigger] order@[i]) < listed.len(),
    ensures
        text@ == kernel_members_from(
            listed_models(listed@),
            crate::text::texts(values@),
            order@,
            0,
            Seq::empty(),
        ),
{
    let ghost models = listed_models(listed@);
    let ghost model_values = crate::text::texts(values@);
    let mut text: String = String::new();
    let mut index: usize = 0;
    assert(text@ =~= Seq::<char>::empty());
    while index < order.len()
        invariant
            index <= order.len(),
            values.len() == listed.len(),
            forall|i: int| 0 <= i < order.len() ==> (#[trigger] order@[i]) < listed.len(),
            models == listed_models(listed@),
            model_values == crate::text::texts(values@),
            kernel_members_from(models, model_values, order@, 0, Seq::empty())
                == kernel_members_from(models, model_values, order@, index as int, text@),
        decreases order.len() - index,
    {
        let place: usize = order[index];
        assert(models[place as int] == listed_model(listed@[place as int]));
        assert(model_values[place as int] == values@[place as int]@);
        if index == 0 {
            text.append("");
        } else {
            text.append(",");
        }
        text.append("\"");
        text.append(listed[place].kernel);
        text.append("\":");
        text.append(values[place].as_str());
        index += 1;
    }
    text
}

/// The digest of a source as a JSON string.
pub open spec fn quoted_digest(source: Seq<char>) -> Seq<char> {
    "\""@ + crate::digest::hex_text(crate::digest::text_digest(source)) + "\""@
}

fn quote_digests(listed: &Vec<ListedSource<'_>>) -> (digests: Vec<String>)
    ensures
        crate::text::texts(digests@) == listed_models(listed@).map_values(
            |model: ListedModel| quoted_digest(model.source),
        ),
        digests.len() == listed.len(),
{
    let mut digests: Vec<String> = Vec::new();
    let mut index: usize = 0;
    while index < listed.len()
        invariant
            index <= listed.len(),
            digests.len() == index,
            forall|i: int|
                0 <= i < index ==> (#[trigger] digests@[i])@ == quoted_digest(
                    listed@[i].source@,
                ),
        decreases listed.len() - index,
    {
        let hex: String = blake3_hex(&source_blake3(listed[index].source));
        digests.push(join3("\"", hex.as_str(), "\""));
        index += 1;
    }
    assert(crate::text::texts(digests@) =~= listed_models(listed@).map_values(
        |model: ListedModel| quoted_digest(model.source),
    ));
    digests
}

/// The JSON listing of shader sources whose JSON strings are known.
pub open spec fn listing_text(
    listed: Seq<ListedModel>,
    quotes: Seq<Seq<char>>,
    order: Seq<usize>,
) -> Seq<char> {
    let digests = listed.map_values(|model: ListedModel| quoted_digest(model.source));
    "{\"schema_version\":1,\"sources\":{"@ + kernel_members_from(
        listed,
        quotes,
        order,
        0,
        Seq::empty(),
    ) + "},\"shader_blake3\":{"@ + kernel_members_from(listed, digests, order, 0, Seq::empty())
        + "}}"@
}

/// The JSON listing of shader sources, or the message that one has no JSON string.
pub open spec fn listing_outcome(
    family: Family,
    listed: Seq<ListedModel>,
    order: Seq<usize>,
) -> Result<Seq<char>, Seq<char>> {
    match quotes_from(family, listed, 0, Seq::empty()) {
        Err(message) => Err(message),
        Ok(quotes) => Ok(listing_text(listed, quotes, order)),
    }
}

/// The JSON listing of shader sources and their digests, in a given order.
pub fn list_sources(family: Family, listed: &Vec<ListedSource<'_>>, order: &Vec<usize>) -> (text:
    Result<String, String>)
    requires
        forall|i: int| 0 <= i < order.len() ==> (#[trigger] order@[i]) < listed.len(),
    ensures
        crate::text::said_text(text) == listing_outcome(family, listed_models(listed@), order@),
        text is Ok,
{
    let quotes: Vec<String> = quote_sources(family, listed)?;
    let digests: Vec<String> = quote_digests(listed);
    let sources: String = kernel_members(listed, &quotes, order);
    let hashes: String = kernel_members(listed, &digests, order);
    Ok(
        crate::text::join5(
            "{\"schema_version\":1,\"sources\":{",
            sources.as_str(),
            "},\"shader_blake3\":{",
            hashes.as_str(),
            "}}",
        ),
    )
}

} // verus!
