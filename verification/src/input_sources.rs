//! GNOME's keyboard input sources and the sway commands that set them.
//!
//! GNOME stores input sources as pairs of a kind (such as "xkb") and a code
//! of the form `layout` or `layout+variant`. Sway takes all layouts as one
//! comma-separated list and all variants as another, in the same order.
use vstd::prelude::*;
use vstd::string::*;
use crate::text::{input_command, join, lemma_views_push, make_input_command, quote, quoted, views};

verus! {

/// An input source list that cannot be turned into sway's lists.
#[derive(Debug, Clone, Copy, PartialEq, Eq)]
pub enum InputSourceError {
    InvalidLayout,
}

/// The first layout sway reports for a keyboard, if any.
pub fn first_layout_name(layouts: &[String]) -> (r: Option<&str>)
    ensures
        layouts@.len() == 0 ==> r is None,
        layouts@.len() > 0 ==> (r matches Some(name) && name@ == layouts@[0]@),
{
    if layouts.len() == 0 {
        None
    } else {
        Some(layouts[0].as_str())
    }
}

/// `i` is the position of the first `+` in `s`.
pub open spec fn is_first_plus(s: Seq<char>, i: int) -> bool {
    &&& 0 <= i < s.len()
    &&& s[i] == '+'
    &&& forall|k: int| 0 <= k < i ==> s[k] != '+'
}

/// The layout of a source code: the part before the first `+`, or all of
/// it.
pub open spec fn source_layout(code: Seq<char>) -> Seq<char> {
    if exists|i: int| is_first_plus(code, i) {
        code.take(choose|i: int| is_first_plus(code, i))
    } else {
        code
    }
}

/// The variant of a source code: the part after the first `+`, or nothing.
pub open spec fn source_variant(code: Seq<char>) -> Seq<char> {
    if exists|i: int| is_first_plus(code, i) {
        code.skip((choose|i: int| is_first_plus(code, i)) + 1)
    } else {
        seq![]
    }
}

/// The codes of the sources; with no source, the US layout alone.
pub open spec fn source_codes(sources: Seq<(String, String)>) -> Seq<Seq<char>> {
    if sources.len() == 0 {
        seq!["us"@]
    } else {
        sources.map_values(|p: (String, String)| p.1@)
    }
}

/// Sway's layout list for `sources`.
pub open spec fn layout_list(sources: Seq<(String, String)>) -> Seq<char> {
    join(source_codes(sources).map_values(|c: Seq<char>| source_layout(c)), ","@)
}

/// Sway's variant list for `sources`.
pub open spec fn variant_list(sources: Seq<(String, String)>) -> Seq<char> {
    join(source_codes(sources).map_values(|c: Seq<char>| source_variant(c)), ","@)
}

/// There is only one first `+`.
proof fn lemma_first_plus_unique(s: Seq<char>, i: int, j: int)
    requires
        is_first_plus(s, i),
        is_first_plus(s, j),
    ensures
        i == j,
{
    if i < j {
        assert(s[i] != '+');
    } else if j < i {
        assert(s[j] != '+');
    }
}

/// Splits a source code at its first `+` into layout and variant.
fn split_source_code(code: &str) -> (r: (String, String))
    ensures
        r.0@ == source_layout(code@),
        r.1@ == source_variant(code@),
{
    let n = code.unicode_len();
    let mut k: usize = 0;
    while k < n
        invariant
            n == code@.len(),
            k <= n,
            forall|m: int| 0 <= m < k ==> code@[m] != '+',
        decreases n - k,
    {
        if code.get_char(k) == '+' {
            assert(is_first_plus(code@, k as int));
            proof {
                let c = choose|i: int| is_first_plus(code@, i);
                lemma_first_plus_unique(code@, c, k as int);
            }
            let layout = String::from_str(code.substring_char(0, k));
            let variant = String::from_str(code.substring_char(k + 1, n));
            assert(code@.subrange(0, k as int) =~= code@.take(k as int));
            assert(code@.subrange(k + 1, n as int) =~= code@.skip(k + 1));
            return (layout, variant);
        }
        k = k + 1;
    }
    assert(!exists|i: int| is_first_plus(code@, i));
    (String::from_str(code), String::new())
}

/// Joining one more part adds a separator and the part.
proof fn lemma_join_push(parts: Seq<Seq<char>>, part: Seq<char>, sep: Seq<char>)
    requires
        parts.len() > 0,
    ensures
        join(parts.push(part), sep) == join(parts, sep) + sep + part,
{
    assert(parts.push(part).drop_last() =~= parts);
}

/// Sway's layout and variant lists for the input sources: the layouts of
/// all sources joined with commas, and their variants likewise (an empty
/// entry for a source without variant). With no source, the US layout.
pub fn input_source_commands(sources: Vec<(String, String)>) -> (r: Result<
    (String, String),
    InputSourceError,
>)
    ensures
        r matches Ok(lists) && lists.0@ == layout_list(sources@) && lists.1@ == variant_list(
            sources@,
        ),
{
    if sources.len() == 0 {
        let layouts = String::from_str("us");
        let variants = String::new();
        proof {
            let codes = source_codes(sources@);
            assert(!exists|i: int| is_first_plus("us"@, i)) by {
                reveal_strlit("us");
                if exists|i: int| is_first_plus("us"@, i) {
                    let i = choose|i: int| is_first_plus("us"@, i);
                    assert("us"@[i] != '+');
                }
            }
            assert(codes.map_values(|c: Seq<char>| source_layout(c)) =~= seq!["us"@]);
            assert(codes.map_values(|c: Seq<char>| source_variant(c)) =~= seq![Seq::<char>::empty()]);
        }
        return Ok((layouts, variants));
    }
    let ghost codes = source_codes(sources@);
    let ghost layout_parts = codes.map_values(|c: Seq<char>| source_layout(c));
    let ghost variant_parts = codes.map_values(|c: Seq<char>| source_variant(c));
    let mut layouts = String::new();
    let mut variants = String::new();
    let mut i: usize = 0;
    while i < sources.len()
        invariant
            sources@.len() > 0,
            codes == source_codes(sources@),
            codes.len() == sources@.len(),
            layout_parts == codes.map_values(|c: Seq<char>| source_layout(c)),
            variant_parts == codes.map_values(|c: Seq<char>| source_variant(c)),
            i <= sources@.len(),
            layouts@ == join(layout_parts.take(i as int), ","@),
            variants@ == join(variant_parts.take(i as int), ","@),
        decreases sources@.len() - i,
    {
        let (layout, variant) = split_source_code(sources[i].1.as_str());
        assert(codes[i as int] == sources@[i as int].1@);
        proof {
            assert(layout_parts.take(i + 1) =~= layout_parts.take(i as int).push(layout@));
            assert(variant_parts.take(i + 1) =~= variant_parts.take(i as int).push(variant@));
        }
        if i > 0 {
            proof {
                lemma_join_push(layout_parts.take(i as int), layout@, ","@);
                lemma_join_push(variant_parts.take(i as int), variant@, ","@);
            }
            layouts.append(",");
            variants.append(",");
        } else {
            assert(layouts@ =~= Seq::<char>::empty());
            assert(variants@ =~= Seq::<char>::empty());
        }
        layouts.append(layout.as_str());
        variants.append(variant.as_str());
        i = i + 1;
    }
    assert(layout_parts.take(i as int) =~= layout_parts);
    assert(variant_parts.take(i as int) =~= variant_parts);
    Ok((layouts, variants))
}

/// The sway commands that set the input sources: the variant list first,
/// then the layout list, each quoted.
pub open spec fn input_source_sway_command_texts(sources: Seq<(String, String)>) -> Seq<Seq<char>> {
    seq![
        input_command("keyboard"@, "xkb_variant"@, quoted(variant_list(sources))),
        input_command("keyboard"@, "xkb_layout"@, quoted(layout_list(sources))),
    ]
}

/// The sway commands that set the input sources, in the order they run.
pub fn input_source_sway_commands(sources: Vec<(String, String)>) -> (r: Result<
    Vec<String>,
    InputSourceError,
>)
    ensures
        r matches Ok(commands) && views(commands@) == input_source_sway_command_texts(sources@),
{
    let ghost given = sources@;
    let (layouts, variants) = match input_source_commands(sources) {
        Ok(lists) => lists,
        Err(e) => {
            return Err(e);
        },
    };
    let mut commands: Vec<String> = Vec::new();
    let variant_command = make_input_command("keyboard", "xkb_variant", quote(variants.as_str()).as_str());
    proof {
        lemma_views_push(commands@, variant_command);
    }
    commands.push(variant_command);
    let layout_command = make_input_command("keyboard", "xkb_layout", quote(layouts.as_str()).as_str());
    proof {
        lemma_views_push(commands@, layout_command);
    }
    commands.push(layout_command);
    assert(views(commands@) =~= input_source_sway_command_texts(given));
    Ok(commands)
}

} // verus!
