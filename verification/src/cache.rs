//! Content-addressed cache keys.
//!
//! A build is described by a [`CRubyBuildInput`].  The descriptor is
//! serialized into a length-prefixed byte string — so that distinct
//! descriptors present distinct byte strings to the hash — and the key is the
//! artifact name, a dash, and the hex-encoded 64-bit SipHash digest of those
//! bytes.  The key depends on nothing but the descriptor's own value, so the
//! same descriptor resolves to the same key across process restarts.

use vstd::prelude::*;
use vstd::bytes::lemma_auto_spec_u64_to_from_le_bytes;
use vstd::bytes::spec_u64_from_le_bytes;
use vstd::bytes::spec_u64_to_le_bytes;
use vstd::bytes::u64_to_le_bytes;
use vstd::utf8::decode_utf8;
use vstd::utf8::encode_utf8;
use vstd::utf8::encode_utf8_decode_utf8;
use crate::source::BuildSource;
use crate::source::BuildSourceView;

verus! {

/// Everything that affects the output bytes of a native interpreter build:
/// the source, the stack-switching frame-buffer size, the extra compiler
/// flags and the enabled extensions.
pub struct CRubyBuildInput {
    pub source: BuildSource,
    pub asyncify_stack_size: usize,
    pub extra_cc_args: Vec<String>,
    pub enabled_extentions: Vec<String>,
}

/// The mathematical value of a [`CRubyBuildInput`].
#[verifier::ext_equal]
pub struct BuildInputView {
    pub source: BuildSourceView,
    pub asyncify_stack_size: usize,
    pub extra_cc_args: Seq<Seq<char>>,
    pub enabled_extentions: Seq<Seq<char>>,
}

impl View for CRubyBuildInput {
    type V = BuildInputView;

    open spec fn view(&self) -> BuildInputView {
        BuildInputView {
            source: self.source@,
            asyncify_stack_size: self.asyncify_stack_size,
            extra_cc_args: self.extra_cc_args.deep_view(),
            enabled_extentions: self.enabled_extentions.deep_view(),
        }
    }
}

/// A 64-bit quantity as eight little-endian bytes.
pub open spec fn enc_u64(n: u64) -> Seq<u8> {
    spec_u64_to_le_bytes(n)
}

/// A string as its UTF-8 bytes behind their length.
pub open spec fn enc_str(s: Seq<char>) -> Seq<u8> {
    enc_u64(encode_utf8(s).len() as u64) + encode_utf8(s)
}

/// The strings of a list, encoded one after the other.
pub open spec fn enc_str_seq(l: Seq<Seq<char>>) -> Seq<u8>
    decreases l.len(),
{
    if l.len() == 0 {
        Seq::empty()
    } else {
        enc_str(l[0]) + enc_str_seq(l.drop_first())
    }
}

/// A list of strings behind its element count.
pub open spec fn enc_str_list(l: Seq<Seq<char>>) -> Seq<u8> {
    enc_u64(l.len() as u64) + enc_str_seq(l)
}

/// A build source: a tag byte, then the variant's fields.
pub open spec fn enc_source(s: BuildSourceView) -> Seq<u8> {
    match s {
        BuildSourceView::GitHub { owner, repo, git_ref } => seq![0u8] + enc_str(owner) + enc_str(
            repo,
        ) + enc_str(git_ref),
        BuildSourceView::Dir { path } => seq![1u8] + enc_str(path),
    }
}

/// The whole descriptor, field after field.
pub open spec fn enc_input(v: BuildInputView) -> Seq<u8> {
    enc_source(v.source) + enc_u64(v.asyncify_stack_size as u64) + enc_str_list(v.extra_cc_args)
        + enc_str_list(v.enabled_extentions)
}

pub proof fn lemma_enc_str_seq_push(l: Seq<Seq<char>>, s: Seq<char>)
    ensures
        enc_str_seq(l.push(s)) == enc_str_seq(l) + enc_str(s),
    decreases l.len(),
{
    if l.len() == 0 {
        assert(l.push(s).drop_first() =~= Seq::<Seq<char>>::empty());
        assert(enc_str_seq(l.push(s)) == enc_str(l.push(s)[0]) + enc_str_seq(
            l.push(s).drop_first(),
        ));
        assert(enc_str_seq(Seq::<Seq<char>>::empty()) =~= Seq::<u8>::empty());
        assert(enc_str(s) + Seq::<u8>::empty() =~= enc_str(s));
        assert(enc_str_seq(l) + enc_str(s) =~= enc_str(s));
    } else {
        assert(l.push(s).drop_first() =~= l.drop_first().push(s));
        lemma_enc_str_seq_push(l.drop_first(), s);
        assert(enc_str_seq(l.push(s)) == enc_str(l[0]) + (enc_str_seq(l.drop_first()) + enc_str(
            s,
        )));
        assert(enc_str(l[0]) + (enc_str_seq(l.drop_first()) + enc_str(s)) =~= (enc_str(l[0])
            + enc_str_seq(l.drop_first())) + enc_str(s));
    }
}

/// Appends the encoding of one string.
fn encode_str_into(out: &mut Vec<u8>, s: &str)
    ensures
        final(out)@ == old(out)@ + enc_str(s@),
{
    let mut bytes = s.as_bytes_vec();
    let mut len_bytes = u64_to_le_bytes(bytes.len() as u64);
    out.append(&mut len_bytes);
    out.append(&mut bytes);
}

/// Appends the encoding of a list of strings.
fn encode_str_list_into(out: &mut Vec<u8>, l: &Vec<String>)
    ensures
        final(out)@ == old(out)@ + enc_str_list(l.deep_view()),
{
    let mut count_bytes = u64_to_le_bytes(l.len() as u64);
    out.append(&mut count_bytes);
    let mut i: usize = 0;
    while i < l.len()
        invariant
            i <= l.len(),
            l.deep_view().len() == l.len(),
            out@ == old(out)@ + enc_u64(l.deep_view().len() as u64) + enc_str_seq(
                l.deep_view().take(i as int),
            ),
        decreases l.len() - i,
    {
        encode_str_into(out, l[i].as_str());
        proof {
            let prefix = l.deep_view().take(i as int);
            lemma_enc_str_seq_push(prefix, l.deep_view()[i as int]);
            assert(l.deep_view().take(i + 1) =~= prefix.push(l.deep_view()[i as int]));
            assert((old(out)@ + enc_u64(l.deep_view().len() as u64) + enc_str_seq(prefix))
                + enc_str(l.deep_view()[i as int]) =~= old(out)@ + enc_u64(
                l.deep_view().len() as u64,
            ) + enc_str_seq(l.deep_view().take(i + 1)));
        }
        i = i + 1;
    }
    proof {
        assert(l.deep_view().take(l.len() as int) =~= l.deep_view());
        assert(old(out)@ + enc_u64(l.deep_view().len() as u64) + enc_str_seq(l.deep_view()) =~= old(
            out,
        )@ + enc_str_list(l.deep_view()));
    }
}

/// Serializes a build descriptor into the byte string that is hashed.
pub fn encode_build_input(input: &CRubyBuildInput) -> (r: Vec<u8>)
    ensures
        r@ == enc_input(input@),
{
    let mut out: Vec<u8> = Vec::new();
    match &input.source {
        BuildSource::GitHub { owner, repo, git_ref } => {
            out.push(0u8);
            proof {
                assert(out@ =~= seq![0u8]);
            }
            encode_str_into(&mut out, owner.as_str());
            encode_str_into(&mut out, repo.as_str());
            encode_str_into(&mut out, git_ref.as_str());
            proof {
                assert(out@ =~= enc_source(input@.source));
            }
        },
        BuildSource::Dir { path } => {
            out.push(1u8);
            proof {
                assert(out@ =~= seq![1u8]);
            }
            encode_str_into(&mut out, path.as_str());
            proof {
                assert(out@ =~= enc_source(input@.source));
            }
        },
    }
    let mut stack_bytes = u64_to_le_bytes(input.asyncify_stack_size as u64);
    out.append(&mut stack_bytes);
    encode_str_list_into(&mut out, &input.extra_cc_args);
    encode_str_list_into(&mut out, &input.enabled_extentions);
    proof {
        assert(out@ =~= enc_input(input@));
    }
    out
}

/// The 64-bit SipHash-1-3 digest (zero key) of a byte string.
pub uninterp spec fn sip13_of(bytes: Seq<u8>) -> u64;

/// Relies on siphasher's `SipHasher13` with `Hasher::write` and
/// `Hasher::finish`: with the fixed zero key the 64-bit digest is a function
/// of the written bytes alone, on every machine and in every process.
#[verifier::external_body]
fn sip13_hash(bytes: &Vec<u8>) -> (r: u64)
    ensures
        r == sip13_of(bytes@),
{
    let mut hasher = siphasher::sip128::SipHasher13::new();
    std::hash::Hasher::write(&mut hasher, bytes.as_slice());
    std::hash::Hasher::finish(&hasher)
}

/// The character for one hexadecimal digit, lower case.
pub open spec fn spec_hex_digit(d: int) -> char {
    if d == 0 {
        '0'
    } else if d == 1 {
        '1'
    } else if d == 2 {
        '2'
    } else if d == 3 {
        '3'
    } else if d == 4 {
        '4'
    } else if d == 5 {
        '5'
    } else if d == 6 {
        '6'
    } else if d == 7 {
        '7'
    } else if d == 8 {
        '8'
    } else if d == 9 {
        '9'
    } else if d == 10 {
        'a'
    } else if d == 11 {
        'b'
    } else if d == 12 {
        'c'
    } else if d == 13 {
        'd'
    } else if d == 14 {
        'e'
    } else {
        'f'
    }
}

/// One byte as two hexadecimal digits, high nibble first.
pub open spec fn spec_hex_byte(b: u8) -> Seq<char> {
    seq![spec_hex_digit(b as int / 16), spec_hex_digit(b as int % 16)]
}

/// A byte string as its hexadecimal digits.
pub open spec fn spec_hex(bytes: Seq<u8>) -> Seq<char>
    decreases bytes.len(),
{
    if bytes.len() == 0 {
        Seq::empty()
    } else {
        spec_hex_byte(bytes[0]) + spec_hex(bytes.drop_first())
    }
}

/// Relies on `hex::encode`: each byte becomes two lowercase hexadecimal
/// digits, high nibble first.
#[verifier::external_body]
fn hex_encode(bytes: &Vec<u8>) -> (r: String)
    ensures
        r@ == spec_hex(bytes@),
{
    hex::encode(bytes.as_slice())
}

/// The cache key of a build: `<name>-<hex of the descriptor's digest>`.
pub open spec fn spec_cache_key(name: Seq<char>, input: BuildInputView) -> Seq<char> {
    name + seq!['-'] + spec_hex(enc_u64(sip13_of(enc_input(input))))
}

/// Derives the stable identifier under which this build's artifacts are
/// stored.
pub fn cache_key(name: &str, input: &CRubyBuildInput) -> (r: String)
    ensures
        r@ == spec_cache_key(name@, input@),
{
    let bytes = encode_build_input(input);
    let digest = sip13_hash(&bytes);
    let digest_bytes = u64_to_le_bytes(digest);
    let digest_hex = hex_encode(&digest_bytes);
    let mut r = String::from_str(name);
    r.append("-");
    r.append(digest_hex.as_str());
    proof {
        reveal_strlit("-");
        assert(r@ =~= spec_cache_key(name@, input@));
    }
    r
}

/// A string whose UTF-8 length fits the length prefix.  Every executable
/// string satisfies this; the bound only matters for the mathematical
/// injectivity statements below.
pub open spec fn bounded_str(s: Seq<char>) -> bool {
    encode_utf8(s).len() < 0x1_0000_0000_0000_0000
}

/// A list whose element count and elements fit their length prefixes.
pub open spec fn bounded_str_list(l: Seq<Seq<char>>) -> bool {
    &&& l.len() < 0x1_0000_0000_0000_0000
    &&& forall|i: int| 0 <= i < l.len() ==> bounded_str(#[trigger] l[i])
}

pub open spec fn bounded_source(s: BuildSourceView) -> bool {
    match s {
        BuildSourceView::GitHub { owner, repo, git_ref } => bounded_str(owner) && bounded_str(repo)
            && bounded_str(git_ref),
        BuildSourceView::Dir { path } => bounded_str(path),
    }
}

pub open spec fn bounded_input(v: BuildInputView) -> bool {
    &&& bounded_source(v.source)
    &&& bounded_str_list(v.extra_cc_args)
    &&& bounded_str_list(v.enabled_extentions)
}

/// Reads back one 64-bit quantity.
pub open spec fn dec_u64(b: Seq<u8>) -> Option<(u64, Seq<u8>)> {
    if b.len() >= 8 {
        Some((spec_u64_from_le_bytes(b.subrange(0, 8)), b.subrange(8, b.len() as int)))
    } else {
        None
    }
}

pub proof fn lemma_dec_u64(n: u64, rest: Seq<u8>)
    ensures
        dec_u64(enc_u64(n) + rest) == Some((n, rest)),
{
    lemma_auto_spec_u64_to_from_le_bytes();
    let b = enc_u64(n) + rest;
    assert(b.subrange(0, 8) =~= enc_u64(n));
    assert(b.subrange(8, b.len() as int) =~= rest);
}

/// Reads back one length-prefixed string.
pub open spec fn dec_str(b: Seq<u8>) -> Option<(Seq<char>, Seq<u8>)> {
    match dec_u64(b) {
        None => None,
        Some((n, rest)) => if rest.len() >= n {
            Some(
                (
                    decode_utf8(rest.subrange(0, n as int)),
                    rest.subrange(n as int, rest.len() as int),
                ),
            )
        } else {
            None
        },
    }
}

pub proof fn lemma_dec_str(s: Seq<char>, rest: Seq<u8>)
    requires
        bounded_str(s),
    ensures
        dec_str(enc_str(s) + rest) == Some((s, rest)),
{
    let bytes = encode_utf8(s);
    let n = bytes.len() as u64;
    assert(enc_str(s) + rest =~= enc_u64(n) + (bytes + rest));
    lemma_dec_u64(n, bytes + rest);
    assert((bytes + rest).subrange(0, n as int) =~= bytes);
    assert((bytes + rest).subrange(n as int, (bytes + rest).len() as int) =~= rest);
    encode_utf8_decode_utf8(s);
}

/// Reads back `k` strings.
pub open spec fn dec_strs(k: nat, b: Seq<u8>) -> Option<(Seq<Seq<char>>, Seq<u8>)>
    decreases k,
{
    if k == 0 {
        Some((Seq::empty(), b))
    } else {
        match dec_str(b) {
            None => None,
            Some((s, rest)) => match dec_strs((k - 1) as nat, rest) {
                None => None,
                Some((l, rem)) => Some((seq![s] + l, rem)),
            },
        }
    }
}

pub proof fn lemma_dec_strs(l: Seq<Seq<char>>, rest: Seq<u8>)
    requires
        forall|i: int| 0 <= i < l.len() ==> bounded_str(#[trigger] l[i]),
    ensures
        dec_strs(l.len(), enc_str_seq(l) + rest) == Some((l, rest)),
    decreases l.len(),
{
    if l.len() == 0 {
        assert(enc_str_seq(l) + rest =~= rest);
        assert(dec_strs(0, rest) == Some((Seq::<Seq<char>>::empty(), rest)));
        assert(l =~= Seq::<Seq<char>>::empty());
    } else {
        let tail = l.drop_first();
        assert(enc_str_seq(l) + rest =~= enc_str(l[0]) + (enc_str_seq(tail) + rest));
        lemma_dec_str(l[0], enc_str_seq(tail) + rest);
        assert(forall|i: int| 0 <= i < tail.len() ==> bounded_str(#[trigger] tail[i]));
        lemma_dec_strs(tail, rest);
        assert(seq![l[0]] + tail =~= l);
    }
}

/// Reads back one count-prefixed list of strings.
pub open spec fn dec_str_list(b: Seq<u8>) -> Option<(Seq<Seq<char>>, Seq<u8>)> {
    match dec_u64(b) {
        None => None,
        Some((n, rest)) => dec_strs(n as nat, rest),
    }
}

pub proof fn lemma_dec_str_list(l: Seq<Seq<char>>, rest: Seq<u8>)
    requires
        bounded_str_list(l),
    ensures
        dec_str_list(enc_str_list(l) + rest) == Some((l, rest)),
{
    assert(enc_str_list(l) + rest =~= enc_u64(l.len() as u64) + (enc_str_seq(l) + rest));
    lemma_dec_u64(l.len() as u64, enc_str_seq(l) + rest);
    assert((l.len() as u64) as nat == l.len());
    lemma_dec_strs(l, rest);
}

/// Reads back one build source.
pub open spec fn dec_source(b: Seq<u8>) -> Option<(BuildSourceView, Seq<u8>)> {
    if b.len() < 1 {
        None
    } else {
        let rest = b.subrange(1, b.len() as int);
        if b[0] == 0u8 {
            match dec_str(rest) {
                None => None,
                Some((owner, r1)) => match dec_str(r1) {
                    None => None,
                    Some((repo, r2)) => match dec_str(r2) {
                        None => None,
                        Some((git_ref, r3)) => Some(
                            (BuildSourceView::GitHub { owner, repo, git_ref }, r3),
                        ),
                    },
                },
            }
        } else if b[0] == 1u8 {
            match dec_str(rest) {
                None => None,
                Some((path, r1)) => Some((BuildSourceView::Dir { path }, r1)),
            }
        } else {
            None
        }
    }
}

pub proof fn lemma_dec_source(s: BuildSourceView, rest: Seq<u8>)
    requires
        bounded_source(s),
    ensures
        dec_source(enc_source(s) + rest) == Some((s, rest)),
{
    let b = enc_source(s) + rest;
    match s {
        BuildSourceView::GitHub { owner, repo, git_ref } => {
            assert(b[0] == 0u8);
            assert(b.subrange(1, b.len() as int) =~= enc_str(owner) + (enc_str(repo) + (enc_str(
                git_ref,
            ) + rest)));
            lemma_dec_str(owner, enc_str(repo) + (enc_str(git_ref) + rest));
            lemma_dec_str(repo, enc_str(git_ref) + rest);
            lemma_dec_str(git_ref, rest);
        },
        BuildSourceView::Dir { path } => {
            assert(b[0] == 1u8);
            assert(b.subrange(1, b.len() as int) =~= enc_str(path) + rest);
            lemma_dec_str(path, rest);
        },
    }
}

/// Reads back a whole descriptor.
pub open spec fn dec_input(b: Seq<u8>) -> Option<BuildInputView> {
    match dec_source(b) {
        None => None,
        Some((source, r1)) => match dec_u64(r1) {
            None => None,
            Some((stack, r2)) => match dec_str_list(r2) {
                None => None,
                Some((cc, r3)) => match dec_str_list(r3) {
                    None => None,
                    Some((exts, _r4)) => Some(
                        BuildInputView {
                            source,
                            asyncify_stack_size: stack as usize,
                            extra_cc_args: cc,
                            enabled_extentions: exts,
                        },
                    ),
                },
            },
        },
    }
}

/// The encoding loses nothing: decoding gives the descriptor back.
pub proof fn lemma_dec_input(v: BuildInputView)
    requires
        bounded_input(v),
    ensures
        dec_input(enc_input(v)) == Some(v),
{
    let st = v.asyncify_stack_size as u64;
    let tail1 = enc_u64(st) + (enc_str_list(v.extra_cc_args) + enc_str_list(
        v.enabled_extentions,
    ));
    assert(enc_input(v) =~= enc_source(v.source) + tail1);
    lemma_dec_source(v.source, tail1);
    lemma_dec_u64(st, enc_str_list(v.extra_cc_args) + enc_str_list(v.enabled_extentions));
    lemma_dec_str_list(v.extra_cc_args, enc_str_list(v.enabled_extentions));
    assert(enc_str_list(v.enabled_extentions) =~= enc_str_list(v.enabled_extentions) + Seq::<
        u8,
    >::empty());
    lemma_dec_str_list(v.enabled_extentions, Seq::empty());
    assert(st as usize == v.asyncify_stack_size);
    assert(dec_input(enc_input(v)).unwrap() =~= v);
}

/// Cache discrimination: two descriptors that differ anywhere — in the
/// source, the stack size, the extra-flags list or the enabled-extension
/// list — present different byte strings to the hash.  Their cache keys can
/// then coincide only where the digests of two different byte strings
/// collide.
pub proof fn lemma_cache_discrimination(i1: BuildInputView, i2: BuildInputView)
    requires
        bounded_input(i1),
        bounded_input(i2),
        i1 != i2,
    ensures
        enc_input(i1) != enc_input(i2),
{
    if enc_input(i1) == enc_input(i2) {
        lemma_dec_input(i1);
        lemma_dec_input(i2);
        assert(false);
    }
}

/// The hexadecimal digits spell twice the bytes' length.
pub proof fn lemma_spec_hex_len(b: Seq<u8>)
    ensures
        spec_hex(b).len() == 2 * b.len(),
    decreases b.len(),
{
    if b.len() > 0 {
        lemma_spec_hex_len(b.drop_first());
    }
}

/// The value a hexadecimal digit stands for.
pub open spec fn spec_hex_val(c: char) -> int {
    if c == '0' {
        0
    } else if c == '1' {
        1
    } else if c == '2' {
        2
    } else if c == '3' {
        3
    } else if c == '4' {
        4
    } else if c == '5' {
        5
    } else if c == '6' {
        6
    } else if c == '7' {
        7
    } else if c == '8' {
        8
    } else if c == '9' {
        9
    } else if c == 'a' {
        10
    } else if c == 'b' {
        11
    } else if c == 'c' {
        12
    } else if c == 'd' {
        13
    } else if c == 'e' {
        14
    } else {
        15
    }
}

/// Hexadecimal spelling loses nothing: equal digit strings come from equal
/// bytes.
pub proof fn lemma_spec_hex_injective(b1: Seq<u8>, b2: Seq<u8>)
    requires
        b1.len() == b2.len(),
        spec_hex(b1) == spec_hex(b2),
    ensures
        b1 == b2,
    decreases b1.len(),
{
    if b1.len() > 0 {
        lemma_spec_hex_len(b1.drop_first());
        lemma_spec_hex_len(b2.drop_first());
        assert(spec_hex(b1)[0] == spec_hex_digit(b1[0] as int / 16));
        assert(spec_hex(b1)[1] == spec_hex_digit(b1[0] as int % 16));
        assert(spec_hex(b2)[0] == spec_hex_digit(b2[0] as int / 16));
        assert(spec_hex(b2)[1] == spec_hex_digit(b2[0] as int % 16));
        assert forall|d1: int, d2: int|
            0 <= d1 < 16 && 0 <= d2 < 16 && spec_hex_digit(d1) == spec_hex_digit(d2) implies d1
            == d2 by {
            assert(spec_hex_val(spec_hex_digit(d1)) == d1);
            assert(spec_hex_val(spec_hex_digit(d2)) == d2);
        }
        assert(b1[0] as int / 16 == b2[0] as int / 16);
        assert(b1[0] as int % 16 == b2[0] as int % 16);
        assert(b1[0] == b2[0]);
        assert(spec_hex(b1.drop_first()) =~= spec_hex(b1).subrange(2, spec_hex(b1).len() as int));
        assert(spec_hex(b2.drop_first()) =~= spec_hex(b2).subrange(2, spec_hex(b2).len() as int));
        lemma_spec_hex_injective(b1.drop_first(), b2.drop_first());
        assert forall|j: int| 0 <= j < b1.len() implies b1[j] == b2[j] by {
            if j > 0 {
                assert(b1[j] == b1.drop_first()[j - 1]);
                assert(b2[j] == b2.drop_first()[j - 1]);
            }
        }
        assert(b1 =~= b2);
    } else {
        assert(b1 =~= b2);
    }
}

/// Different digests give different cache keys, whatever the artifact name.
pub proof fn lemma_keys_differ_when_digests_differ(
    name: Seq<char>,
    i1: BuildInputView,
    i2: BuildInputView,
)
    requires
        sip13_of(enc_input(i1)) != sip13_of(enc_input(i2)),
    ensures
        spec_cache_key(name, i1) != spec_cache_key(name, i2),
{
    let h1 = sip13_of(enc_input(i1));
    let h2 = sip13_of(enc_input(i2));
    lemma_auto_spec_u64_to_from_le_bytes();
    assert(enc_u64(h1) != enc_u64(h2));
    lemma_spec_hex_len(enc_u64(h1));
    lemma_spec_hex_len(enc_u64(h2));
    if spec_cache_key(name, i1) == spec_cache_key(name, i2) {
        assert(spec_hex(enc_u64(h1)) =~= spec_cache_key(name, i1).subrange(
            name.len() as int + 1,
            spec_cache_key(name, i1).len() as int,
        ));
        assert(spec_hex(enc_u64(h2)) =~= spec_cache_key(name, i2).subrange(
            name.len() as int + 1,
            spec_cache_key(name, i2).len() as int,
        ));
        lemma_spec_hex_injective(enc_u64(h1), enc_u64(h2));
        assert(false);
    }
}

} // verus!
