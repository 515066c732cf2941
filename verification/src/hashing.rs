//! The content-addressed build cache's hashing scheme.
//!
//! A build hash is the upper-case hex encoding of the SHA-256 digest of
//! `language-name ++ dep-string`, where the dep string joins each
//! dependency's `name,version` pair with a `:` separator.

use vstd::prelude::*;
use vstd::utf8::encode_utf8;
use vstd::utf8::encode_utf8_decode_utf8;

use crate::target::DepView;
use crate::target::Dependencies;
use crate::target::SupportedLanguage;
use crate::target::spec_lang_name;

verus! {

/// The SHA-256 digest of a byte sequence.
pub uninterp spec fn spec_sha256(bytes: Seq<u8>) -> Seq<u8>;

/// Computes the SHA-256 digest of the given bytes.
///
/// Relies on `sha2::Sha256` (through the `digest::Digest` trait): the
/// digest is a deterministic function of the input bytes alone, and is
/// 32 bytes long.
#[verifier::external_body]
fn sha256_digest(data: &[u8]) -> (r: Vec<u8>)
    ensures
        r@ == spec_sha256(data@),
        r@.len() == 32,
{
    <sha2::Sha256 as sha2::Digest>::digest(data).to_vec()
}

/// One upper-case hex digit for a value below 16.
pub open spec fn spec_hex_digit(n: int) -> char {
    if n == 0 {
        '0'
    } else if n == 1 {
        '1'
    } else if n == 2 {
        '2'
    } else if n == 3 {
        '3'
    } else if n == 4 {
        '4'
    } else if n == 5 {
        '5'
    } else if n == 6 {
        '6'
    } else if n == 7 {
        '7'
    } else if n == 8 {
        '8'
    } else if n == 9 {
        '9'
    } else if n == 10 {
        'A'
    } else if n == 11 {
        'B'
    } else if n == 12 {
        'C'
    } else if n == 13 {
        'D'
    } else if n == 14 {
        'E'
    } else {
        'F'
    }
}

/// The upper-case hex encoding of a byte sequence, two digits per byte.
pub open spec fn spec_hex_of_bytes(bytes: Seq<u8>) -> Seq<char>
    decreases bytes.len(),
{
    if bytes.len() == 0 {
        Seq::<char>::empty()
    } else {
        spec_hex_of_bytes(bytes.drop_last()) + seq![
            spec_hex_digit(bytes.last() as int / 16),
            spec_hex_digit(bytes.last() as int % 16),
        ]
    }
}

pub(crate) fn hex_digit(n: u8) -> (c: char)
    requires
        n < 16,
    ensures
        c == spec_hex_digit(n as int),
{
    if n == 0 {
        '0'
    } else if n == 1 {
        '1'
    } else if n == 2 {
        '2'
    } else if n == 3 {
        '3'
    } else if n == 4 {
        '4'
    } else if n == 5 {
        '5'
    } else if n == 6 {
        '6'
    } else if n == 7 {
        '7'
    } else if n == 8 {
        '8'
    } else if n == 9 {
        '9'
    } else if n == 10 {
        'A'
    } else if n == 11 {
        'B'
    } else if n == 12 {
        'C'
    } else if n == 13 {
        'D'
    } else if n == 14 {
        'E'
    } else {
        'F'
    }
}

/// Encodes bytes as upper-case hex, two digits per byte.
fn hex_of_bytes(bytes: &Vec<u8>) -> (r: String)
    ensures
        r@ == spec_hex_of_bytes(bytes@),
{
    let mut r = String::new();
    let n = bytes.len();
    let mut i: usize = 0;
    while i < n
        invariant
            n == bytes@.len(),
            i <= n,
            r@ == spec_hex_of_bytes(bytes@.take(i as int)),
        decreases n - i,
    {
        let b = bytes[i];
        crate::strutil::push_char(&mut r, hex_digit(b / 16));
        crate::strutil::push_char(&mut r, hex_digit(b % 16));
        proof {
            let t = bytes@.take(i + 1);
            assert(t.drop_last() =~= bytes@.take(i as int));
            assert(r@ =~= spec_hex_of_bytes(t));
        }
        i = i + 1;
    }
    proof {
        assert(bytes@.take(n as int) =~= bytes@);
    }
    r
}

proof fn lemma_hex_len(bytes: Seq<u8>)
    ensures
        spec_hex_of_bytes(bytes).len() == 2 * bytes.len(),
    decreases bytes.len(),
{
    if bytes.len() > 0 {
        lemma_hex_len(bytes.drop_last());
    }
}

/// The serialized form of one dependency inside the hash input.
pub open spec fn spec_dep_entry(d: DepView) -> Seq<char> {
    d.name + seq![','] + d.version
}

/// The serialized dependency list inside the hash input: each entry's
/// `name,version`, joined with `:`.
pub open spec fn spec_dep_string(deps: Seq<DepView>) -> Seq<char>
    decreases deps.len(),
{
    if deps.len() == 0 {
        Seq::<char>::empty()
    } else if deps.len() == 1 {
        spec_dep_entry(deps[0])
    } else {
        spec_dep_entry(deps[0]) + seq![':'] + spec_dep_string(deps.drop_first())
    }
}

proof fn lemma_dep_string_push(deps: Seq<DepView>, d: DepView)
    ensures
        spec_dep_string(deps.push(d)) == if deps.len() == 0 {
            spec_dep_entry(d)
        } else {
            spec_dep_string(deps) + seq![':'] + spec_dep_entry(d)
        },
    decreases deps.len(),
{
    if deps.len() == 0 {
        assert(deps.push(d)[0] == d);
        assert(spec_dep_string(deps.push(d)) =~= spec_dep_entry(d));
    } else if deps.len() == 1 {
        assert(deps.push(d).drop_first() =~= seq![d]);
        assert(seq![d][0] == d);
        assert(spec_dep_string(seq![d]) == spec_dep_entry(d));
        assert(spec_dep_string(deps) == spec_dep_entry(deps[0]));
        assert(spec_dep_string(deps.push(d)) =~= spec_dep_string(deps) + seq![':']
            + spec_dep_entry(d));
    } else {
        assert(deps.push(d).drop_first() =~= deps.drop_first().push(d));
        lemma_dep_string_push(deps.drop_first(), d);
        assert(spec_dep_string(deps.push(d)) =~= spec_dep_string(deps) + seq![':']
            + spec_dep_entry(d));
    }
}

/// Builds the serialized dependency list for the hash input.
pub fn dep_string(deps: &Dependencies) -> (r: String)
    ensures
        r@ == spec_dep_string(deps.deep_view()),
{
    let mut s = String::new();
    let n = deps.len();
    let mut i: usize = 0;
    while i < n
        invariant
            n == deps@.len(),
            i <= n,
            deps.deep_view().len() == n,
            forall|j: int| 0 <= j < n ==> deps.deep_view()[j] == deps@[j].deep_view(),
            s@ == spec_dep_string(deps.deep_view().take(i as int)),
        decreases n - i,
    {
        if i > 0 {
            s.append(":");
        }
        let d = &deps[i];
        s.append(d.name.as_str());
        s.append(",");
        s.append(d.version.as_str());
        proof {
            reveal_strlit(":");
            reveal_strlit(",");
            assert(":"@ =~= seq![':']);
            assert(","@ =~= seq![',']);
            lemma_dep_string_push(deps.deep_view().take(i as int), deps.deep_view()[i as int]);
            assert(deps.deep_view().take(i + 1) =~= deps.deep_view().take(i as int).push(
                deps.deep_view()[i as int],
            ));
            assert(s@ =~= spec_dep_string(deps.deep_view().take(i + 1)));
        }
        i = i + 1;
    }
    proof {
        assert(deps.deep_view().take(n as int) =~= deps.deep_view());
    }
    s
}

/// The character string whose UTF-8 bytes are hashed: the language name
/// followed by the serialized dependency list.
pub open spec fn spec_hash_input(language: SupportedLanguage, deps: Seq<DepView>) -> Seq<char> {
    spec_lang_name(language) + spec_dep_string(deps)
}

/// The build hash of a language and dependency list.
pub open spec fn spec_generate_hash(language: SupportedLanguage, deps: Seq<DepView>) -> Seq<char> {
    spec_hex_of_bytes(spec_sha256(encode_utf8(spec_hash_input(language, deps))))
}

/// Computes the build hash over the language identity and the ordered
/// dependency list.
pub fn generate_hash(deps: &Dependencies, language: SupportedLanguage) -> (r: String)
    ensures
        r@ == spec_generate_hash(language, deps.deep_view()),
        r@.len() == 64,
{
    let mut input = String::from_str(language.name());
    let ds = dep_string(deps);
    input.append(ds.as_str());
    let digest = sha256_digest(input.as_str().as_bytes());
    proof {
        lemma_hex_len(digest@);
    }
    hex_of_bytes(&digest)
}

/// Equal dependency lists (same names, versions and order) and the same
/// language always hash to the same value.
pub proof fn lemma_hash_deterministic(
    language: SupportedLanguage,
    d1: Seq<DepView>,
    d2: Seq<DepView>,
)
    requires
        d1 == d2,
    ensures
        spec_generate_hash(language, d1) == spec_generate_hash(language, d2),
{
}

/// A dependency whose fields cannot collide with the hash-input
/// separators: its name holds neither `,` nor `:`, and its version
/// holds no `:`.
pub open spec fn spec_dep_sep_free(d: DepView) -> bool {
    !d.name.contains(',') && !d.name.contains(':') && !d.version.contains(':')
}

proof fn lemma_unjoin(a1: Seq<char>, s1: Seq<char>, a2: Seq<char>, s2: Seq<char>, c: char)
    requires
        !a1.contains(c),
        !a2.contains(c),
        s1.len() == 0 || s1[0] == c,
        s2.len() == 0 || s2[0] == c,
        a1 + s1 == a2 + s2,
    ensures
        a1 == a2,
        s1 == s2,
{
    if a1.len() < a2.len() {
        assert(s1.len() > 0);
        assert((a1 + s1)[a1.len() as int] == c);
        assert((a2 + s2)[a1.len() as int] == a2[a1.len() as int]);
        assert(a2.contains(c));
    } else if a2.len() < a1.len() {
        assert(s2.len() > 0);
        assert((a2 + s2)[a2.len() as int] == c);
        assert((a1 + s1)[a2.len() as int] == a1[a2.len() as int]);
        assert(a1.contains(c));
    } else {
        assert forall|i: int| 0 <= i < a1.len() implies a1[i] == a2[i] by {
            assert((a1 + s1)[i] == a1[i]);
            assert((a2 + s2)[i] == a2[i]);
        }
        assert(a1 =~= a2);
        assert((a1 + s1).len() == a1.len() + s1.len());
        assert((a2 + s2).len() == a2.len() + s2.len());
        assert(s1.len() == s2.len());
        assert forall|i: int| 0 <= i < s1.len() implies s1[i] == s2[i] by {
            assert((a1 + s1)[a1.len() + i] == s1[i]);
            assert((a2 + s2)[a2.len() + i] == s2[i]);
        }
        assert(s1 =~= s2);
    }
}

proof fn lemma_dep_entry_injective(d1: DepView, d2: DepView)
    requires
        spec_dep_sep_free(d1),
        spec_dep_sep_free(d2),
        spec_dep_entry(d1) == spec_dep_entry(d2),
    ensures
        d1 == d2,
{
    assert(spec_dep_entry(d1) =~= d1.name + (seq![','] + d1.version));
    assert(spec_dep_entry(d2) =~= d2.name + (seq![','] + d2.version));
    lemma_unjoin(d1.name, seq![','] + d1.version, d2.name, seq![','] + d2.version, ',');
    assert(d1.version =~= (seq![','] + d1.version).drop_first());
    assert(d2.version =~= (seq![','] + d2.version).drop_first());
}

proof fn lemma_entry_sep_free(d: DepView)
    requires
        spec_dep_sep_free(d),
    ensures
        !spec_dep_entry(d).contains(':'),
{
    let e = spec_dep_entry(d);
    assert forall|i: int| 0 <= i < e.len() implies e[i] != ':' by {
        if i < d.name.len() {
            assert(e[i] == d.name[i]);
            assert(d.name.contains(':') <== d.name[i] == ':');
        } else if i == d.name.len() {
            assert(e[i] == ',');
        } else {
            assert(e[i] == d.version[i - d.name.len() - 1]);
            assert(d.version.contains(':') <== d.version[i - d.name.len() - 1] == ':');
        }
    }
    if e.contains(':') {
        let i = choose|i: int| 0 <= i < e.len() && e[i] == ':';
    }
}

proof fn lemma_dep_string_injective(d1: Seq<DepView>, d2: Seq<DepView>)
    requires
        forall|i: int| 0 <= i < d1.len() ==> spec_dep_sep_free(#[trigger] d1[i]),
        forall|i: int| 0 <= i < d2.len() ==> spec_dep_sep_free(#[trigger] d2[i]),
        spec_dep_string(d1) == spec_dep_string(d2),
    ensures
        d1 == d2,
    decreases d1.len(),
{
    if d1.len() == 0 && d2.len() == 0 {
        assert(d1 =~= d2);
    } else if d1.len() == 0 {
        assert(spec_dep_string(d2).len() >= spec_dep_entry(d2[0]).len());
        assert(spec_dep_entry(d2[0]).len() >= 1);
    } else if d2.len() == 0 {
        assert(spec_dep_string(d1).len() >= spec_dep_entry(d1[0]).len());
        assert(spec_dep_entry(d1[0]).len() >= 1);
    } else {
        let e1 = spec_dep_entry(d1[0]);
        let e2 = spec_dep_entry(d2[0]);
        let r1: Seq<char> = if d1.len() == 1 {
            Seq::<char>::empty()
        } else {
            seq![':'] + spec_dep_string(d1.drop_first())
        };
        let r2: Seq<char> = if d2.len() == 1 {
            Seq::<char>::empty()
        } else {
            seq![':'] + spec_dep_string(d2.drop_first())
        };
        assert(spec_dep_string(d1) =~= e1 + r1);
        assert(spec_dep_string(d2) =~= e2 + r2);
        lemma_entry_sep_free(d1[0]);
        lemma_entry_sep_free(d2[0]);
        lemma_unjoin(e1, r1, e2, r2, ':');
        lemma_dep_entry_injective(d1[0], d2[0]);
        if d1.len() == 1 && d2.len() == 1 {
            assert(d1 =~= d2);
        } else if d1.len() == 1 {
            assert(r2.len() == 0);
            assert(r2 =~= seq![':'] + spec_dep_string(d2.drop_first()));
        } else if d2.len() == 1 {
            assert(r1.len() == 0);
        } else {
            assert(spec_dep_string(d1.drop_first()) =~= r1.drop_first());
            assert(spec_dep_string(d2.drop_first()) =~= r2.drop_first());
            lemma_dep_string_injective(d1.drop_first(), d2.drop_first());
            assert(d1 =~= seq![d1[0]] + d1.drop_first());
            assert(d2 =~= seq![d2[0]] + d2.drop_first());
        }
    }
}

/// Dependency lists that differ in some name or version (and are free of
/// the hash-input separator characters) feed *different* byte strings to
/// the digest.  Distinctness of the digest itself then rests on SHA-256's
/// collision resistance, which is outside what can be proved here.
pub proof fn lemma_hash_input_injective(
    language: SupportedLanguage,
    d1: Seq<DepView>,
    d2: Seq<DepView>,
)
    requires
        forall|i: int| 0 <= i < d1.len() ==> spec_dep_sep_free(#[trigger] d1[i]),
        forall|i: int| 0 <= i < d2.len() ==> spec_dep_sep_free(#[trigger] d2[i]),
        d1 != d2,
    ensures
        encode_utf8(spec_hash_input(language, d1)) != encode_utf8(spec_hash_input(language, d2)),
{
    if encode_utf8(spec_hash_input(language, d1)) == encode_utf8(spec_hash_input(language, d2)) {
        encode_utf8_decode_utf8(spec_hash_input(language, d1));
        encode_utf8_decode_utf8(spec_hash_input(language, d2));
        assert(spec_hash_input(language, d1) == spec_hash_input(language, d2));
        let nm = spec_lang_name(language);
        assert(spec_dep_string(d1) =~= spec_dep_string(d2)) by {
            assert(forall|i: int|
                0 <= i < spec_dep_string(d1).len() ==> spec_dep_string(d1)[i] == (nm
                    + spec_dep_string(d1))[nm.len() + i] && spec_dep_string(d2)[i] == (nm
                    + spec_dep_string(d2))[nm.len() + i]);
        }
        lemma_dep_string_injective(d1, d2);
    }
}

} // verus!
