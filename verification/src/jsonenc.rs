//! A verified JSON encoder for template contexts.
//!
//! The template engine receives its context as a JSON document.  This
//! module builds that document from the crate's own plain values, with
//! full string escaping, so that the serialized form of a context is
//! pinned down exactly.

use vstd::prelude::*;

use crate::hashing::spec_hex_digit;
use crate::strutil::push_char;
use crate::target::DepView;
use crate::target::Dependencies;

verus! {

/// The JSON escape of one character inside a string literal: quotes and
/// backslashes get a backslash escape, control characters a `\u00XX`
/// escape, and every other character stands for itself.
pub open spec fn spec_json_escaped_char(c: char) -> Seq<char> {
    if c == '"' {
        seq!['\\', '"']
    } else if c == '\\' {
        seq!['\\', '\\']
    } else if (c as u32) < 32 {
        seq!['\\', 'u', '0', '0', spec_hex_digit(c as u32 as int / 16), spec_hex_digit(
            c as u32 as int % 16,
        )]
    } else {
        seq![c]
    }
}

/// The JSON escape of a whole string body.
pub open spec fn spec_json_escaped(s: Seq<char>) -> Seq<char>
    decreases s.len(),
{
    if s.len() == 0 {
        Seq::<char>::empty()
    } else {
        spec_json_escaped(s.drop_last()) + spec_json_escaped_char(s.last())
    }
}

/// A JSON string literal: the escaped body between double quotes.
pub open spec fn spec_json_string(s: Seq<char>) -> Seq<char> {
    seq!['"'] + spec_json_escaped(s) + seq!['"']
}

/// The comma-joined elements of a JSON array of strings.
pub open spec fn spec_json_string_items(items: Seq<Seq<char>>) -> Seq<char>
    decreases items.len(),
{
    if items.len() == 0 {
        Seq::<char>::empty()
    } else if items.len() == 1 {
        spec_json_string(items[0])
    } else {
        spec_json_string_items(items.drop_last()) + seq![','] + spec_json_string(items.last())
    }
}

/// A JSON array of strings.
pub open spec fn spec_json_string_array(items: Seq<Seq<char>>) -> Seq<char> {
    seq!['['] + spec_json_string_items(items) + seq![']']
}

/// The JSON object standing for one dependency.
pub open spec fn spec_json_dep(d: DepView) -> Seq<char> {
    "{\"name\":"@ + spec_json_string(d.name) + ",\"version\":"@ + spec_json_string(d.version)
        + "}"@
}

/// The comma-joined elements of a JSON array of dependency objects.
pub open spec fn spec_json_dep_items(deps: Seq<DepView>) -> Seq<char>
    decreases deps.len(),
{
    if deps.len() == 0 {
        Seq::<char>::empty()
    } else if deps.len() == 1 {
        spec_json_dep(deps[0])
    } else {
        spec_json_dep_items(deps.drop_last()) + seq![','] + spec_json_dep(deps.last())
    }
}

/// A JSON array of dependency objects.
pub open spec fn spec_json_dep_array(deps: Seq<DepView>) -> Seq<char> {
    seq!['['] + spec_json_dep_items(deps) + seq![']']
}

/// Appends the JSON escape of `s` to `out`.
fn push_json_escaped(out: &mut String, s: &str)
    ensures
        final(out)@ == old(out)@ + spec_json_escaped(s@),
{
    let n = s.unicode_len();
    let mut i: usize = 0;
    proof {
        assert(s@.take(0) =~= Seq::<char>::empty());
        assert(out@ =~= old(out)@ + spec_json_escaped(s@.take(0)));
    }
    while i < n
        invariant
            n == s@.len(),
            i <= n,
            out@ == old(out)@ + spec_json_escaped(s@.take(i as int)),
        decreases n - i,
    {
        let c = s.get_char(i);
        if c == '"' {
            push_char(out, '\\');
            push_char(out, '"');
        } else if c == '\\' {
            push_char(out, '\\');
            push_char(out, '\\');
        } else if (c as u32) < 32 {
            let code = c as u32;
            push_char(out, '\\');
            push_char(out, 'u');
            push_char(out, '0');
            push_char(out, '0');
            push_char(out, crate::hashing::hex_digit((code / 16) as u8));
            push_char(out, crate::hashing::hex_digit((code % 16) as u8));
        } else {
            push_char(out, c);
        }
        proof {
            let t = s@.take(i + 1);
            assert(t.drop_last() =~= s@.take(i as int));
            assert(t.last() == s@[i as int]);
            assert(out@ =~= old(out)@ + spec_json_escaped(t));
        }
        i = i + 1;
    }
    proof {
        assert(s@.take(n as int) =~= s@);
    }
}

/// Appends the JSON string literal for `s` to `out`.
pub fn push_json_string(out: &mut String, s: &str)
    ensures
        final(out)@ == old(out)@ + spec_json_string(s@),
{
    push_char(out, '"');
    push_json_escaped(out, s);
    push_char(out, '"');
    proof {
        assert(out@ =~= old(out)@ + spec_json_string(s@));
    }
}

/// Appends a JSON array holding the given strings to `out`.
pub fn push_json_string_array(out: &mut String, items: &Vec<String>)
    ensures
        final(out)@ == old(out)@ + spec_json_string_array(items.deep_view()),
{
    push_char(out, '[');
    let ghost base = out@;
    let n = items.len();
    let mut i: usize = 0;
    proof {
        assert(items.deep_view().take(0) =~= Seq::<Seq<char>>::empty());
        assert(out@ =~= base + spec_json_string_items(items.deep_view().take(0)));
    }
    while i < n
        invariant
            n == items@.len(),
            i <= n,
            items.deep_view().len() == n,
            forall|j: int| 0 <= j < n ==> items.deep_view()[j] == items@[j]@,
            out@ == base + spec_json_string_items(items.deep_view().take(i as int)),
        decreases n - i,
    {
        if i > 0 {
            push_char(out, ',');
        }
        push_json_string(out, items[i].as_str());
        proof {
            let t = items.deep_view().take(i + 1);
            assert(t.drop_last() =~= items.deep_view().take(i as int));
            assert(t.last() == items.deep_view()[i as int]);
            assert(out@ =~= base + spec_json_string_items(t));
        }
        i = i + 1;
    }
    push_char(out, ']');
    proof {
        assert(items.deep_view().take(n as int) =~= items.deep_view());
        assert(out@ =~= old(out)@ + spec_json_string_array(items.deep_view()));
    }
}

/// Appends a JSON array of dependency objects to `out`.
pub fn push_json_dep_array(out: &mut String, deps: &Dependencies)
    ensures
        final(out)@ == old(out)@ + spec_json_dep_array(deps.deep_view()),
{
    push_char(out, '[');
    let ghost base = out@;
    let n = deps.len();
    let mut i: usize = 0;
    proof {
        assert(deps.deep_view().take(0) =~= Seq::<DepView>::empty());
        assert(out@ =~= base + spec_json_dep_items(deps.deep_view().take(0)));
    }
    while i < n
        invariant
            n == deps@.len(),
            i <= n,
            deps.deep_view().len() == n,
            forall|j: int| 0 <= j < n ==> deps.deep_view()[j] == deps@[j].deep_view(),
            out@ == base + spec_json_dep_items(deps.deep_view().take(i as int)),
        decreases n - i,
    {
        if i > 0 {
            push_char(out, ',');
        }
        let d = &deps[i];
        out.append("{\"name\":");
        push_json_string(out, d.name.as_str());
        out.append(",\"version\":");
        push_json_string(out, d.version.as_str());
        out.append("}");
        proof {
            let t = deps.deep_view().take(i + 1);
            assert(t.drop_last() =~= deps.deep_view().take(i as int));
            assert(t.last() == deps.deep_view()[i as int]);
            assert(out@ =~= base + spec_json_dep_items(t));
        }
        i = i + 1;
    }
    push_char(out, ']');
    proof {
        assert(deps.deep_view().take(n as int) =~= deps.deep_view());
        assert(out@ =~= old(out)@ + spec_json_dep_array(deps.deep_view()));
    }
}

} // verus!
