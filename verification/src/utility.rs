//! General helpers the surrounding program uses while talking to the driver:
//! decoding the fixed-size, nul-terminated name arrays the device API hands
//! back, set differences over name lists (to check extension support), and
//! rendering a packed API version number as a dotted string.
use vstd::prelude::*;

verus! {

use vstd::utf8::decode_utf8;
use vstd::utf8::encode_utf8;
use vstd::utf8::encode_utf8_decode_utf8;
use vstd::utf8::encode_utf8_valid_utf8;
use vstd::utf8::is_ascii_chars;
use vstd::utf8::is_ascii_chars_encode_utf8;
use vstd::utf8::valid_utf8;

/// `String::from_utf8`'s error type. The driver reports device names as raw
/// byte arrays, so a name that fails to decode surfaces this error unchanged.
#[verifier::external_type_specification]
#[verifier::external_body]
pub struct ExFromUtf8Error(std::string::FromUtf8Error);

/// Relies on `String::from_utf8`: it returns the string holding exactly the
/// given bytes when they are valid UTF-8, and an error otherwise.
pub assume_specification[ String::from_utf8 ](vec: Vec<u8>) -> (r: Result<
    String,
    std::string::FromUtf8Error,
>)
    ensures
        r is Ok <==> valid_utf8(vec@),
        r matches Ok(s) ==> s@ == decode_utf8(vec@),
;

/// The byte a signed byte stands for, reinterpreted without changing bits.
pub open spec fn byte_of(b: i8) -> u8 {
    if b >= 0 {
        b as u8
    } else {
        (b + 256) as u8
    }
}

/// The length of the prefix of `s` before its first nul, or all of `s` if it
/// holds none.
pub open spec fn nul_cut(s: Seq<i8>) -> int
    decreases s.len(),
{
    if s.len() == 0 {
        0
    } else if s[0] == 0 {
        0
    } else {
        1 + nul_cut(s.drop_first())
    }
}

/// The bytes of `s` before its first nul.
pub open spec fn nul_prefix_bytes(s: Seq<i8>) -> Seq<u8> {
    Seq::new(nul_cut(s) as nat, |i: int| byte_of(s[i]))
}

/// `nul_cut` is within bounds, everything before it is non-nul, and it stops
/// at a nul when one exists.
proof fn lemma_nul_cut_bounds(s: Seq<i8>)
    ensures
        0 <= nul_cut(s) <= s.len(),
        forall|j: int| 0 <= j < nul_cut(s) ==> s[j] != 0,
        nul_cut(s) < s.len() ==> s[nul_cut(s)] == 0,
    decreases s.len(),
{
    if s.len() != 0 && s[0] != 0 {
        lemma_nul_cut_bounds(s.drop_first());
        assert forall|j: int| 0 <= j < nul_cut(s) implies s[j] != 0 by {
            if j > 0 {
                assert(s[j] == s.drop_first()[j - 1]);
            }
        }
    }
}

/// Any index with the properties of `nul_cut` is `nul_cut`.
proof fn lemma_nul_cut_unique(s: Seq<i8>, k: int)
    requires
        0 <= k <= s.len(),
        forall|j: int| 0 <= j < k ==> s[j] != 0,
        k < s.len() ==> s[k] == 0,
    ensures
        k == nul_cut(s),
    decreases s.len(),
{
    if s.len() != 0 && s[0] != 0 {
        lemma_nul_cut_unique(s.drop_first(), k - 1);
    }
}

/// The bytes of `arr` before its first nul, or `None` exactly when no nul
/// terminates the array. This carries the distinction a C-string view of the
/// array draws: an unterminated array is not a C string at all, while
/// [`i8_array_to_string`] below decodes whatever precedes the end.
pub fn nul_terminated_bytes(arr: &[i8]) -> (r: Option<Vec<u8>>)
    ensures
        r is Some <==> nul_cut(arr@) < arr@.len(),
        r matches Some(v) ==> v@ == nul_prefix_bytes(arr@),
{
    let n: usize = arr.len();
    let mut k: usize = 0;
    while k < n && arr[k] != 0
        invariant
            n == arr@.len(),
            0 <= k <= n,
            forall|j: int| 0 <= j < k ==> arr@[j] != 0,
        decreases n - k,
    {
        k = k + 1;
    }
    proof {
        lemma_nul_cut_unique(arr@, k as int);
    }
    if k == n {
        return None;
    }
    let mut bytes: Vec<u8> = Vec::new();
    let mut i: usize = 0;
    while i < k
        invariant
            n == arr@.len(),
            0 <= i <= k <= n,
            bytes@.len() == i,
            forall|j: int| 0 <= j < i ==> bytes@[j] == byte_of(arr@[j]),
        decreases k - i,
    {
        let b = arr[i];
        let ub: u8 = if b >= 0 {
            b as u8
        } else {
            ((b as i16) + 256) as u8
        };
        bytes.push(ub);
        i = i + 1;
    }
    proof {
        assert(bytes@ =~= nul_prefix_bytes(arr@));
    }
    Some(bytes)
}

/// Decodes the prefix of `arr` before its first nul as UTF-8. The device API
/// reports names as fixed-size, nul-padded signed-byte arrays; the result is
/// the name when that prefix is valid UTF-8 and the decoding error exactly
/// otherwise.
pub fn i8_array_to_string(arr: &[i8]) -> (r: Result<String, std::string::FromUtf8Error>)
    ensures
        r is Ok <==> valid_utf8(nul_prefix_bytes(arr@)),
        r matches Ok(s) ==> s@ == decode_utf8(nul_prefix_bytes(arr@)),
{
    let n: usize = arr.len();
    let mut k: usize = 0;
    while k < n && arr[k] != 0
        invariant
            n == arr@.len(),
            0 <= k <= n,
            forall|j: int| 0 <= j < k ==> arr@[j] != 0,
        decreases n - k,
    {
        k = k + 1;
    }
    proof {
        lemma_nul_cut_unique(arr@, k as int);
    }
    let mut bytes: Vec<u8> = Vec::new();
    let mut i: usize = 0;
    while i < k
        invariant
            n == arr@.len(),
            0 <= i <= k <= n,
            bytes@.len() == i,
            forall|j: int| 0 <= j < i ==> bytes@[j] == byte_of(arr@[j]),
        decreases k - i,
    {
        let b = arr[i];
        let ub: u8 = if b >= 0 {
            b as u8
        } else {
            ((b as i16) + 256) as u8
        };
        bytes.push(ub);
        i = i + 1;
    }
    proof {
        assert(bytes@ =~= nul_prefix_bytes(arr@));
    }
    String::from_utf8(bytes)
}

/// True of the names that do not occur in `excluded`.
pub open spec fn absent_from(excluded: Seq<Seq<char>>) -> spec_fn(Seq<char>) -> bool {
    |s: Seq<char>| !excluded.contains(s)
}

/// True of the names that occur in `included`.
pub open spec fn present_in(included: Seq<Seq<char>>) -> spec_fn(Seq<char>) -> bool {
    |s: Seq<char>| included.contains(s)
}

/// Filtering distributes over appending one element.
proof fn lemma_filter_push<A>(s: Seq<A>, pred: spec_fn(A) -> bool, x: A)
    ensures
        s.push(x).filter(pred) == if pred(x) {
            s.filter(pred).push(x)
        } else {
            s.filter(pred)
        },
{
    reveal(Seq::filter);
    assert(s.push(x).drop_last() =~= s);
}

/// True when `slice` holds a string spelled like `s`.
fn slice_contains(slice: &Vec<String>, s: &String) -> (r: bool)
    ensures
        r == slice.deep_view().contains(s@),
{
    let n: usize = slice.len();
    let mut j: usize = 0;
    while j < n
        invariant
            n == slice@.len(),
            0 <= j <= n,
            forall|l: int| 0 <= l < j ==> slice.deep_view()[l] != s@,
        decreases n - j,
    {
        if slice[j] == *s {
            proof {
                assert(slice.deep_view()[j as int] == s@);
            }
            return true;
        }
        j = j + 1;
    }
    false
}

/// Returns the values from `items` that are not contained in `slice`, in
/// their original order, comparing by spelling.
pub fn not_in_slice(slice: &Vec<String>, items: &Vec<String>) -> (r: Vec<String>)
    ensures
        r.deep_view() == items.deep_view().filter(absent_from(slice.deep_view())),
{
    let n: usize = items.len();
    let mut r: Vec<String> = Vec::new();
    let mut i: usize = 0;
    proof {
        assert(items.deep_view().take(0) =~= Seq::<Seq<char>>::empty());
        assert(r.deep_view() =~= Seq::<Seq<char>>::empty());
        reveal(Seq::filter);
    }
    while i < n
        invariant
            n == items@.len(),
            items@.len() == items.deep_view().len(),
            0 <= i <= n,
            r.deep_view() == items.deep_view().take(i as int).filter(
                absent_from(slice.deep_view()),
            ),
        decreases n - i,
    {
        let ghost dv = items.deep_view();
        let ghost pred = absent_from(slice.deep_view());
        let ghost r0 = r.deep_view();
        proof {
            assert(dv.take(i + 1) =~= dv.take(i as int).push(dv[i as int]));
            lemma_filter_push(dv.take(i as int), pred, dv[i as int]);
            assert(items.deep_view()[i as int] == items@[i as int]@);
        }
        if !slice_contains(slice, &items[i]) {
            let kept = items[i].clone();
            proof {
                assert(kept@ == dv[i as int]);
            }
            r.push(kept);
            proof {
                assert(r.deep_view() =~= r0.push(dv[i as int]));
            }
        }
        i = i + 1;
    }
    proof {
        assert(items.deep_view().take(n as int) =~= items.deep_view());
    }
    r
}

/// Returns the values from `items` that are contained in `slice`, in their
/// original order, comparing by spelling.
pub fn in_slice(slice: &Vec<String>, items: &Vec<String>) -> (r: Vec<String>)
    ensures
        r.deep_view() == items.deep_view().filter(present_in(slice.deep_view())),
{
    let n: usize = items.len();
    let mut r: Vec<String> = Vec::new();
    let mut i: usize = 0;
    proof {
        assert(items.deep_view().take(0) =~= Seq::<Seq<char>>::empty());
        assert(r.deep_view() =~= Seq::<Seq<char>>::empty());
        reveal(Seq::filter);
    }
    while i < n
        invariant
            n == items@.len(),
            items@.len() == items.deep_view().len(),
            0 <= i <= n,
            r.deep_view() == items.deep_view().take(i as int).filter(
                present_in(slice.deep_view()),
            ),
        decreases n - i,
    {
        let ghost dv = items.deep_view();
        let ghost pred = present_in(slice.deep_view());
        let ghost r0 = r.deep_view();
        proof {
            assert(dv.take(i + 1) =~= dv.take(i as int).push(dv[i as int]));
            lemma_filter_push(dv.take(i as int), pred, dv[i as int]);
            assert(items.deep_view()[i as int] == items@[i as int]@);
        }
        if slice_contains(slice, &items[i]) {
            let kept = items[i].clone();
            proof {
                assert(kept@ == dv[i as int]);
            }
            r.push(kept);
            proof {
                assert(r.deep_view() =~= r0.push(dv[i as int]));
            }
        }
        i = i + 1;
    }
    proof {
        assert(items.deep_view().take(n as int) =~= items.deep_view());
    }
    r
}

/// The decimal digit `d` as a character.
pub open spec fn digit_char(d: nat) -> char {
    if d == 0 {
        '0'
    } else if d == 1 {
        '1'
    } else if d == 2 {
        '2'
    } else if d == 3 {
        '3'
    } else if d == 4 {
        '4'
    } else if d == 5 {
        '5'
    } else if d == 6 {
        '6'
    } else if d == 7 {
        '7'
    } else if d == 8 {
        '8'
    } else {
        '9'
    }
}

/// The decimal spelling of `n`, most significant digit first, no leading
/// zeros (a single zero for zero).
pub open spec fn spec_decimal_chars(n: nat) -> Seq<char>
    decreases n,
{
    if n < 10 {
        seq![digit_char(n)]
    } else {
        spec_decimal_chars(n / 10) + seq![digit_char(n % 10)]
    }
}

/// The dotted major.minor.patch spelling of a packed version number: the
/// major version sits in bits 22 and above (7 bits), the minor version in
/// bits 12..22 (10 bits), the patch version in the low 12 bits.
pub open spec fn spec_version_chars(v: u32) -> Seq<char> {
    spec_decimal_chars((((v >> 22) & 0x7f) as nat)) + seq!['.'] + spec_decimal_chars(
        (((v >> 12) & 0x3ff) as nat),
    ) + seq!['.'] + spec_decimal_chars(((v & 0xfff) as nat))
}

/// UTF-8 encoding distributes over concatenation.
proof fn lemma_encode_utf8_concat(a: Seq<char>, b: Seq<char>)
    ensures
        encode_utf8(a + b) == encode_utf8(a) + encode_utf8(b),
    decreases a.len(),
{
    if a.len() == 0 {
        assert(a + b =~= b);
        assert(encode_utf8(a) + encode_utf8(b) =~= encode_utf8(b));
    } else {
        assert((a + b).drop_first() =~= a.drop_first() + b);
        assert((a + b)[0] == a[0]);
        lemma_encode_utf8_concat(a.drop_first(), b);
        assert(encode_utf8(a + b) =~= encode_utf8(a) + encode_utf8(b));
    }
}

/// An ASCII character's UTF-8 encoding is its own byte.
proof fn lemma_encode_ascii_singleton(c: char)
    requires
        '\0' <= c <= '\u{7f}',
    ensures
        encode_utf8(seq![c]) == seq![c as u8],
{
    let s = seq![c];
    assert(is_ascii_chars(s));
    is_ascii_chars_encode_utf8(s);
    assert(encode_utf8(s) =~= seq![c as u8]);
}

/// Relies on `ash::vk::api_version_major`: the major version of a packed
/// version number, bits 22..29.
#[verifier::external_body]
fn api_version_major(version: u32) -> (r: u32)
    ensures
        r == (version >> 22) & 0x7f,
{
    ash::vk::api_version_major(version)
}

/// Relies on `ash::vk::api_version_minor`: the minor version of a packed
/// version number, bits 12..22.
#[verifier::external_body]
fn api_version_minor(version: u32) -> (r: u32)
    ensures
        r == (version >> 12) & 0x3ff,
{
    ash::vk::api_version_minor(version)
}

/// Relies on `ash::vk::api_version_patch`: the patch version of a packed
/// version number, the low 12 bits.
#[verifier::external_body]
fn api_version_patch(version: u32) -> (r: u32)
    ensures
        r == version & 0xfff,
{
    ash::vk::api_version_patch(version)
}

/// Appends the UTF-8 (here: ASCII) bytes of the decimal spelling of `n`.
fn push_decimal(out: &mut Vec<u8>, n: u32)
    ensures
        final(out)@ == old(out)@ + encode_utf8(spec_decimal_chars(n as nat)),
    decreases n,
{
    let ghost out0 = out@;
    if n >= 10 {
        push_decimal(out, n / 10);
    }
    let d: u8 = (n % 10) as u8;
    out.push(d + 0x30);
    proof {
        let dc = digit_char((n % 10) as nat);
        assert('\0' <= dc <= '\u{7f}');
        lemma_encode_ascii_singleton(dc);
        assert(dc as u8 == d + 0x30);
        if n < 10 {
            assert(out@ =~= out0 + encode_utf8(spec_decimal_chars(n as nat)));
        } else {
            lemma_encode_utf8_concat(
                spec_decimal_chars((n / 10) as nat),
                seq![digit_char((n % 10) as nat)],
            );
            assert(out@ =~= out0 + encode_utf8(spec_decimal_chars(n as nat)));
        }
    }
}

/// Renders a packed API version number as its dotted major.minor.patch
/// spelling, the field widths being those of the packed encoding.
pub fn parse_vulkan_api_version(v: u32) -> (r: String)
    ensures
        r@ == spec_version_chars(v),
{
    let major = api_version_major(v);
    let minor = api_version_minor(v);
    let patch = api_version_patch(v);
    let mut bytes: Vec<u8> = Vec::new();
    push_decimal(&mut bytes, major);
    bytes.push(0x2e);
    push_decimal(&mut bytes, minor);
    bytes.push(0x2e);
    push_decimal(&mut bytes, patch);
    proof {
        let ma = spec_decimal_chars(((v >> 22) & 0x7f) as nat);
        let mi = spec_decimal_chars(((v >> 12) & 0x3ff) as nat);
        let pa = spec_decimal_chars((v & 0xfff) as nat);
        let dot = seq!['.'];
        lemma_encode_ascii_singleton('.');
        lemma_encode_utf8_concat(ma, dot);
        lemma_encode_utf8_concat(ma + dot, mi);
        lemma_encode_utf8_concat(ma + dot + mi, dot);
        lemma_encode_utf8_concat(ma + dot + mi + dot, pa);
        assert(bytes@ =~= encode_utf8(spec_version_chars(v)));
        encode_utf8_valid_utf8(spec_version_chars(v));
        encode_utf8_decode_utf8(spec_version_chars(v));
    }
    match String::from_utf8(bytes) {
        Ok(s) => s,
        Err(_) => vstd::pervasive::unreached(),
    }
}

} // verus!
