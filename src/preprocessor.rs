//! The macro engine: a left-to-right scan in two states. In the normal
//! state characters are copied; `$` starts collecting a macro name, which
//! runs while characters are alphanumeric. The first other character, or
//! the end of the text, finishes the name: its value is emitted (nothing
//! for an unknown name), then the finishing character itself.
//!
//! The engine works in two passes so that producers stay outside it:
//! [`macro_calls`] lists the finished names in document order, the caller
//! runs one producer per entry (or none, for an unknown name), and
//! [`process`] assembles the text from those values.

use vstd::prelude::*;
use vstd::string::StrSliceExecFns;
use crate::text::push_char;

verus! {

/// Whether a character is alphanumeric in Unicode's sense.
pub uninterp spec fn alnum(c: char) -> bool;

pub open spec fn is_ascii_alnum(c: char) -> bool {
    ('a' <= c && c <= 'z') || ('A' <= c && c <= 'Z') || ('0' <= c && c <= '9')
}

/// Relies on `char::is_alphanumeric`: Unicode's alphabetic or numeric
/// characters; among ASCII ones, exactly letters and digits.
#[verifier::external_body]
fn is_alphanumeric(c: char) -> (r: bool)
    ensures
        r == alnum(c),
        (c as u32) < 128 ==> (r <==> is_ascii_alnum(c)),
{
    c.is_alphanumeric()
}

/// The value produced for the next finished macro: nothing when there is
/// none, or when the name is unknown.
pub open spec fn value_of(values: Seq<Option<Seq<char>>>) -> Seq<char> {
    if values.len() > 0 && values[0] is Some {
        values[0]->0
    } else {
        seq![]
    }
}

/// The values left once the next finished macro has taken its own.
pub open spec fn rest_of(values: Seq<Option<Seq<char>>>) -> Seq<Option<Seq<char>>> {
    if values.len() > 0 {
        values.drop_first()
    } else {
        values
    }
}

/// The output of the scan over `text`, starting in the collecting state
/// when `collecting` holds, with `values` for the macros still to finish.
pub open spec fn expand_from(
    text: Seq<char>,
    collecting: bool,
    values: Seq<Option<Seq<char>>>,
) -> Seq<char>
    decreases text.len(),
{
    if text.len() == 0 {
        if collecting {
            value_of(values)
        } else {
            seq![]
        }
    } else {
        let c = text[0];
        let rest = text.drop_first();
        if !collecting {
            if c == '$' {
                expand_from(rest, true, values)
            } else {
                seq![c] + expand_from(rest, false, values)
            }
        } else if alnum(c) {
            expand_from(rest, true, values)
        } else {
            value_of(values) + seq![c] + expand_from(rest, false, rest_of(values))
        }
    }
}

/// The expansion of `text`, where the i-th finished macro has the i-th value.
pub open spec fn expand(text: Seq<char>, values: Seq<Option<Seq<char>>>) -> Seq<char> {
    expand_from(text, false, values)
}

/// The names of the macros that finish in the scan over `text`, in order,
/// starting with the name collected so far in `pending`.
pub open spec fn calls_from(text: Seq<char>, pending: Option<Seq<char>>) -> Seq<Seq<char>>
    decreases text.len(),
{
    if text.len() == 0 {
        match pending {
            Some(n) => seq![n],
            None => seq![],
        }
    } else {
        let c = text[0];
        let rest = text.drop_first();
        match pending {
            None => if c == '$' {
                calls_from(rest, Some(seq![]))
            } else {
                calls_from(rest, None)
            },
            Some(n) => if alnum(c) {
                calls_from(rest, Some(n.push(c)))
            } else {
                seq![n] + calls_from(rest, None)
            },
        }
    }
}

/// The macro names in `text`, in document order, one per occurrence.
pub open spec fn calls(text: Seq<char>) -> Seq<Seq<char>> {
    calls_from(text, None)
}

pub open spec fn value_views(values: Seq<Option<String>>) -> Seq<Option<Seq<char>>> {
    values.map_values(|v: Option<String>| match v {
        Some(s) => Some(s@),
        None => None,
    })
}

pub open spec fn name_views(names: Seq<String>) -> Seq<Seq<char>> {
    names.map_values(|s: String| s@)
}

/// Lists the macro occurrences of `text` in document order.
pub fn macro_calls(text: &str) -> (r: Vec<String>)
    ensures
        name_views(r@) == calls(text@),
{
    let n = text.unicode_len();
    let mut out: Vec<String> = Vec::new();
    let mut collecting = false;
    let mut name = String::new();
    let mut i: usize = 0;
    assert(text@.skip(0) =~= text@);
    assert(name_views(out@) + calls(text@) =~= calls(text@));
    while i < n
        invariant
            n == text@.len(),
            i <= n,
            calls(text@) == name_views(out@) + calls_from(
                text@.skip(i as int),
                if collecting { Some(name@) } else { None },
            ),
        decreases n - i,
    {
        let c = text.get_char(i);
        let ghost before = out@;
        let ghost pend = if collecting { Some(name@) } else { None::<Seq<char>> };
        assert(text@.skip(i as int).drop_first() =~= text@.skip(i as int + 1));
        if !collecting {
            if c == '$' {
                collecting = true;
                name = String::new();
            }
        } else if is_alphanumeric(c) {
            push_char(&mut name, c);
        } else {
            let finished = name;
            name = String::new();
            out.push(finished);
            collecting = false;
            assert(name_views(out@) =~= name_views(before) + seq![pend->0]);
            assert(name_views(out@) + calls_from(text@.skip(i as int + 1), None) =~= name_views(
                before,
            ) + (seq![pend->0] + calls_from(text@.skip(i as int + 1), None)));
        }
        i = i + 1;
    }
    if collecting {
        let ghost before = out@;
        out.push(name);
        assert(name_views(out@) =~= name_views(before) + seq![name@]);
    }
    assert(text@.skip(n as int).len() == 0);
    assert(name_views(out@) =~= calls(text@));
    out
}

/// Assembles the expansion of `text`: the i-th macro occurrence is replaced
/// by `values[i]`, or by nothing where that is `None` or missing.
pub fn process(text: &str, values: &Vec<Option<String>>) -> (r: String)
    ensures
        r@ == expand(text@, value_views(values@)),
{
    let ghost vals = value_views(values@);
    let n = text.unicode_len();
    let mut out = String::new();
    let mut collecting = false;
    let mut k: usize = 0;
    let mut i: usize = 0;
    assert(text@.skip(0) =~= text@);
    assert(vals.skip(0) =~= vals);
    assert(out@ + expand(text@, vals) =~= expand(text@, vals));
    while i < n
        invariant
            n == text@.len(),
            i <= n,
            k <= values.len(),
            vals == value_views(values@),
            vals.len() == values.len(),
            expand(text@, vals) == out@ + expand_from(
                text@.skip(i as int),
                collecting,
                vals.skip(k as int),
            ),
        decreases n - i,
    {
        let c = text.get_char(i);
        assert(text@.skip(i as int).drop_first() =~= text@.skip(i as int + 1));
        if !collecting {
            if c == '$' {
                collecting = true;
            } else {
                let ghost o = out@;
                push_char(&mut out, c);
                assert(out@ + expand_from(text@.skip(i as int + 1), false, vals.skip(k as int))
                    =~= o + (seq![c] + expand_from(
                    text@.skip(i as int + 1),
                    false,
                    vals.skip(k as int),
                )));
            }
        } else if is_alphanumeric(c) {
        } else {
            let ghost o = out@;
            let ghost v = vals.skip(k as int);
            if k < values.len() {
                match &values[k] {
                    Some(s) => {
                        out.append(s.as_str());
                    },
                    None => {},
                }
                assert(v.drop_first() =~= vals.skip(k as int + 1));
                k = k + 1;
            }
            let ghost mid = out@;
            assert(mid == o + value_of(v));
            push_char(&mut out, c);
            collecting = false;
            assert(vals.skip(k as int) == rest_of(v));
            assert(out@ + expand_from(text@.skip(i as int + 1), false, vals.skip(k as int))
                =~= o + (value_of(v) + seq![c] + expand_from(
                text@.skip(i as int + 1),
                false,
                rest_of(v),
            )));
        }
        i = i + 1;
    }
    if collecting {
        let ghost o = out@;
        let ghost v = vals.skip(k as int);
        if k < values.len() {
            match &values[k] {
                Some(s) => {
                    out.append(s.as_str());
                },
                None => {},
            }
        }
        assert(out@ == o + value_of(v));
    }
    assert(text@.skip(n as int).len() == 0);
    assert(out@ =~= expand(text@, vals));
    out
}

/// Text without `$` expands to itself, whatever the values: an expanded
/// text that holds no `$` is a fixed point of expansion.
pub proof fn lemma_expand_without_trigger(text: Seq<char>, values: Seq<Option<Seq<char>>>)
    requires
        !text.contains('$'),
    ensures
        expand(text, values) == text,
        calls(text).len() == 0,
    decreases text.len(),
{
    if text.len() > 0 {
        let rest = text.drop_first();
        assert(text[0] != '$');
        assert forall|j: int| 0 <= j < rest.len() implies rest[j] != '$' by {
            assert(rest[j] == text[j + 1]);
        }
        lemma_expand_without_trigger(rest, values);
        assert(text =~= seq![text[0]] + rest);
    }
}

} // verus!
