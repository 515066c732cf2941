//! The template-engine adapter.
//!
//! Each template is rendered against a context serialized as a JSON
//! document (built by [`crate::jsonenc`]).  What the engine produces is
//! a deterministic function of the template body and the context
//! document, named here by [`rendering`].
//!
//! The engine's compiler is not total: on a few malformed constructs it
//! indexes past the end of a tag instead of reporting an error, and the
//! process would abort.  [`spec_template_supported`] over-approximates
//! those constructs; the adapter refuses such a template with a typed
//! error before the engine ever sees it, so rendering never panics.

use vstd::prelude::*;

use crate::errors::ResolveError;
use crate::errors::ResolveErrorV;

verus! {

/// An ASCII whitespace character (the non-ASCII whitespace characters
/// are handled by the non-ASCII rule of the hazard scan).
pub open spec fn spec_ascii_ws(c: char) -> bool {
    c == ' ' || c == '\t' || c == '\n' || c == '\r' || c as u32 == 11 || c as u32 == 12
}

/// After skipping ASCII whitespace from position `i`: the text ends, or
/// the next character is `}`, `-` or non-ASCII.  Inside an `if not`
/// tag, any of these can leave the negation keyword as the whole tag
/// body, which the engine's compiler slices past unsafely.
pub open spec fn spec_ws_then_risky(t: Seq<char>, i: int) -> bool
    decreases t.len() - i,
{
    if i < 0 || i >= t.len() {
        true
    } else if spec_ascii_ws(t[i]) {
        spec_ws_then_risky(t, i + 1)
    } else {
        t[i] == '}' || t[i] == '-' || t[i] as u32 >= 128
    }
}

/// The word `not` standing at position `j`, continued in a way the
/// engine's compiler may slice past unsafely: at the end of the text,
/// before a non-ASCII character (the slice would split it), or with
/// only whitespace, `-` and the closing brace behind it (the keyword
/// would be the whole remaining tag body).
pub open spec fn spec_not_hazard_at(t: Seq<char>, j: int) -> bool {
    &&& 0 <= j && j + 3 <= t.len()
    &&& t[j] == 'n' && t[j + 1] == 'o' && t[j + 2] == 't'
    &&& (j + 3 == t.len() || t[j + 3] as u32 >= 128 || t[j + 3] == '}' || t[j + 3] == '-' || (
    spec_ascii_ws(t[j + 3]) && spec_ws_then_risky(t, j + 3)))
}

/// A left-to-right scan for template constructs whose compilation is
/// not safe: a `{#}` comment tag whose `#` doubles as its closer, and a
/// `not` hazard inside an open `{{` block tag.  `open` tracks whether a
/// `{{` has been seen with no `}}` after it.
pub open spec fn spec_scan_hazard(t: Seq<char>, i: int, open: bool) -> bool
    decreases t.len() - i,
{
    if i < 0 || i >= t.len() {
        false
    } else {
        let opens = i + 2 <= t.len() && t[i] == '{' && t[i + 1] == '{';
        let closes = i + 2 <= t.len() && t[i] == '}' && t[i + 1] == '}';
        let comment_hazard = i + 3 <= t.len() && t[i] == '{' && t[i + 1] == '#' && t[i + 2]
            == '}';
        if comment_hazard {
            true
        } else if open && spec_not_hazard_at(t, i) {
            true
        } else {
            spec_scan_hazard(
                t,
                i + 1,
                if opens {
                    true
                } else if closes {
                    false
                } else {
                    open
                },
            )
        }
    }
}

/// A template body the engine compiles without aborting: it holds no
/// hazardous construct and does not end with a backslash (a trailing
/// escape makes the compiler's text scanner slice past the end of the
/// input).  The set is a conservative over-approximation: a few odd but
/// harmless bodies are refused too, and the adapter reports them as
/// rendering failures.
pub open spec fn spec_template_supported(t: Seq<char>) -> bool {
    !spec_scan_hazard(t, 0, false) && (t.len() == 0 || t.last() != '\\')
}

fn ws_then_risky(t: &str, start: usize) -> (r: bool)
    requires
        start <= t@.len(),
    ensures
        r == spec_ws_then_risky(t@, start as int),
{
    let n = t.unicode_len();
    let mut i: usize = start;
    while i < n
        invariant
            n == t@.len(),
            start <= i <= n,
            spec_ws_then_risky(t@, start as int) == spec_ws_then_risky(t@, i as int),
        decreases n - i,
    {
        let c = t.get_char(i);
        if c == ' ' || c == '\t' || c == '\n' || c == '\r' || c as u32 == 11 || c as u32 == 12 {
            i = i + 1;
        } else {
            return c == '}' || c == '-' || c as u32 >= 128;
        }
    }
    true
}

fn not_hazard_at(t: &str, j: usize) -> (r: bool)
    requires
        j < t@.len(),
    ensures
        r == spec_not_hazard_at(t@, j as int),
{
    let n = t.unicode_len();
    if n - j < 3 {
        return false;
    }
    if t.get_char(j) != 'n' || t.get_char(j + 1) != 'o' || t.get_char(j + 2) != 't' {
        return false;
    }
    if j + 3 == n {
        return true;
    }
    let c = t.get_char(j + 3);
    if c as u32 >= 128 || c == '}' || c == '-' {
        return true;
    }
    if c == ' ' || c == '\t' || c == '\n' || c == '\r' || c as u32 == 11 || c as u32 == 12 {
        ws_then_risky(t, j + 3)
    } else {
        false
    }
}

/// Whether the engine compiles this template body without aborting.
pub fn is_template_supported(t: &str) -> (r: bool)
    ensures
        r == spec_template_supported(t@),
{
    let n = t.unicode_len();
    if n > 0 && t.get_char(n - 1) == '\\' {
        return false;
    }
    let mut i: usize = 0;
    let mut open = false;
    while i < n
        invariant
            n == t@.len(),
            i <= n,
            n == 0 || t@.last() != '\\',
            spec_scan_hazard(t@, 0, false) == spec_scan_hazard(t@, i as int, open),
        decreases n - i,
    {
        let brace2 = n - i >= 2;
        let opens = brace2 && t.get_char(i) == '{' && t.get_char(i + 1) == '{';
        let closes = brace2 && t.get_char(i) == '}' && t.get_char(i + 1) == '}';
        let comment_hazard = n - i >= 3 && t.get_char(i) == '{' && t.get_char(i + 1) == '#'
            && t.get_char(i + 2) == '}';
        if comment_hazard {
            return false;
        }
        if open && not_hazard_at(t, i) {
            return false;
        }
        open = if opens {
            true
        } else if closes {
            false
        } else {
            open
        };
        i = i + 1;
    }
    true
}

/// What the template engine produces for a supported template body and
/// a JSON context document: the rendered text, or nothing when parsing
/// the context or rendering the template fails.
pub uninterp spec fn rendering(template: Seq<char>, context_json: Seq<char>) -> Option<Seq<char>>;

/// The outcome of the adapter for any template body: the engine's
/// result on a supported body, and a failure on a body the engine
/// cannot compile safely.
pub open spec fn spec_rendering_outcome(template: Seq<char>, context_json: Seq<char>) -> Option<
    Seq<char>,
> {
    if spec_template_supported(template) {
        rendering(template, context_json)
    } else {
        None
    }
}

/// Renders one template against a JSON context document.
///
/// Relies on `tinytemplate::TinyTemplate` with its default formatter set
/// to `tinytemplate::format_unescaped`, and on `serde_json::from_str`
/// for the context document.  The outcome is a deterministic function of
/// the two strings alone: the engine walks the compiled template and
/// looks values up in the parsed context, and nothing else flows in.
/// The `requires` keeps out the template bodies on which the engine's
/// compiler indexes out of bounds instead of returning an error (an
/// `if` tag whose body is bare `not`, or `not` followed by a non-ASCII
/// character; a `{#}` comment tag; a trailing backslash).
#[verifier::external_body]
fn render_raw(template: &str, context_json: &str) -> (r: Result<String, String>)
    requires
        spec_template_supported(template@),
    ensures
        r is Ok ==> rendering(template@, context_json@) == Some(r->Ok_0@),
        r is Err ==> rendering(template@, context_json@) is None,
{
    let ctx: serde_json::Value = match serde_json::from_str(context_json) {
        Ok(v) => v,
        Err(e) => return Err(e.to_string()),
    };
    let mut tt = tinytemplate::TinyTemplate::new();
    tt.set_default_formatter(&tinytemplate::format_unescaped);
    if let Err(e) = tt.add_template("t", template) {
        return Err(e.to_string());
    }
    match tt.render("t", &ctx) {
        Ok(s) => Ok(s),
        Err(e) => Err(e.to_string()),
    }
}

/// Rendering is deterministic: rendering a template against a context
/// and then re-rendering the identical template and context yields the
/// identical output.  Any two results of rendering the same pair are
/// equal, byte for byte.
pub proof fn lemma_rendering_deterministic(
    template: Seq<char>,
    context_json: Seq<char>,
    r1: Option<Seq<char>>,
    r2: Option<Seq<char>>,
)
    requires
        r1 == spec_rendering_outcome(template, context_json),
        r2 == spec_rendering_outcome(template, context_json),
    ensures
        r1 == r2,
{
}

/// Renders the template registered under `name`, reporting a failure
/// against that name.  A body the engine cannot compile safely is
/// refused here, before the engine sees it.
pub fn render_named(name: &str, template: &str, context_json: &str) -> (r: Result<
    String,
    ResolveError,
>)
    ensures
        r is Ok <==> spec_rendering_outcome(template@, context_json@) is Some,
        r is Ok ==> Some(r->Ok_0@) == spec_rendering_outcome(template@, context_json@),
        r is Err ==> (r->Err_0@ matches ResolveErrorV::RenderFailed { template: t, message: _ }
            && t == name@),
{
    if !is_template_supported(template) {
        return Err(
            ResolveError::RenderFailed {
                template: String::from_str(name),
                message: String::from_str("the template holds a construct the engine cannot compile"),
            },
        );
    }
    match render_raw(template, context_json) {
        Ok(s) => Ok(s),
        Err(message) => Err(
            ResolveError::RenderFailed { template: String::from_str(name), message },
        ),
    }
}

} // verus!
