//! Where the detached LUKS header of a device is kept.

use crate::text;
use base64::engine::general_purpose::URL_SAFE_NO_PAD;
use base64::Engine;
use vstd::prelude::*;
use vstd::string::*;
use vstd::utf8::*;

verus! {

pub const LUKS_HEADERS_STORAGE_DIR: &'static str = "/run/confidential-containers/cdh/luks-headers";

pub const LUKS_HEADER_FILE_SUFFIX: &'static str = ".header";

/// The size that a detached header file is given.
pub const LUKS2_HEADER_MIN_SIZE_BYTES: u64 = 16 * 1024 * 1024;

/// The symbol of a six-bit value in the URL-safe alphabet.
pub open spec fn base64_symbol(v: int) -> char {
    if v < 26 {
        ('A' as int + v) as char
    } else if v < 52 {
        ('a' as int + (v - 26)) as char
    } else if v < 62 {
        ('0' as int + (v - 52)) as char
    } else if v == 62 {
        '-'
    } else {
        '_'
    }
}

/// URL-safe Base64 without padding: three bytes make four symbols of six bits
/// each, and one or two bytes at the end make two or three.
pub open spec fn base64url(b: Seq<u8>) -> Seq<char>
    decreases b.len(),
{
    if b.len() == 0 {
        Seq::empty()
    } else if b.len() == 1 {
        seq![base64_symbol(b[0] as int / 4), base64_symbol((b[0] as int % 4) * 16)]
    } else if b.len() == 2 {
        seq![
            base64_symbol(b[0] as int / 4),
            base64_symbol((b[0] as int % 4) * 16 + b[1] as int / 16),
            base64_symbol((b[1] as int % 16) * 4),
        ]
    } else {
        seq![
            base64_symbol(b[0] as int / 4),
            base64_symbol((b[0] as int % 4) * 16 + b[1] as int / 16),
            base64_symbol((b[1] as int % 16) * 4 + b[2] as int / 64),
            base64_symbol(b[2] as int % 64),
        ] + base64url(b.skip(3))
    }
}

/// `Engine::encode` of base64's `URL_SAFE_NO_PAD`: the URL-safe Base64 text of
/// `bytes`, without padding.
#[verifier::external_body]
fn encode_base64url(bytes: &[u8]) -> (r: String)
    ensures
        r@ == base64url(bytes@),
{
    URL_SAFE_NO_PAD.encode(bytes)
}

/// The path of the detached header of a device.
pub open spec fn header_path_of(device_path: Seq<char>) -> Seq<char> {
    LUKS_HEADERS_STORAGE_DIR@ + "/"@ + base64url(encode_utf8(device_path))
        + LUKS_HEADER_FILE_SUFFIX@
}

/// Returns the path where the detached LUKS header for the given device is stored.
pub fn luks_header_path(device_path: &str) -> (r: String)
    ensures
        r@ == header_path_of(device_path@),
{
    let name = encode_base64url(device_path.as_bytes());
    let mut r = text::joined(LUKS_HEADERS_STORAGE_DIR, "/");
    r.append(name.as_str());
    r.append(LUKS_HEADER_FILE_SUFFIX);
    r
}

proof fn lemma_symbol_injective(v: int, w: int)
    requires
        0 <= v < 64,
        0 <= w < 64,
        base64_symbol(v) == base64_symbol(w),
    ensures
        v == w,
{
}

proof fn lemma_base64url_len(b: Seq<u8>)
    ensures
        base64url(b).len() == (b.len() / 3) * 4 + (if b.len() % 3 == 0 {
            0nat
        } else {
            b.len() % 3 + 1nat
        }),
    decreases b.len(),
{
    if b.len() >= 3 {
        lemma_base64url_len(b.skip(3));
    }
}

/// Different bytes have different Base64 texts.
proof fn lemma_base64url_injective(a: Seq<u8>, b: Seq<u8>)
    requires
        base64url(a) == base64url(b),
    ensures
        a == b,
    decreases a.len(),
{
    lemma_base64url_len(a);
    lemma_base64url_len(b);
    assert(a.len() == b.len());
    let s = base64url(a);
    let t = base64url(b);
    if a.len() == 0 {
        assert(a =~= b);
    } else if a.len() == 1 {
        assert(s[0] == t[0] && s[1] == t[1]);
        lemma_symbol_injective(a[0] as int / 4, b[0] as int / 4);
        lemma_symbol_injective((a[0] as int % 4) * 16, (b[0] as int % 4) * 16);
        assert(a =~= b);
    } else if a.len() == 2 {
        assert(s[0] == t[0] && s[1] == t[1] && s[2] == t[2]);
        lemma_symbol_injective(a[0] as int / 4, b[0] as int / 4);
        lemma_symbol_injective(
            (a[0] as int % 4) * 16 + a[1] as int / 16,
            (b[0] as int % 4) * 16 + b[1] as int / 16,
        );
        lemma_symbol_injective((a[1] as int % 16) * 4, (b[1] as int % 16) * 4);
        assert(a =~= b);
    } else {
        assert(s[0] == t[0] && s[1] == t[1] && s[2] == t[2] && s[3] == t[3]);
        lemma_symbol_injective(a[0] as int / 4, b[0] as int / 4);
        lemma_symbol_injective(
            (a[0] as int % 4) * 16 + a[1] as int / 16,
            (b[0] as int % 4) * 16 + b[1] as int / 16,
        );
        lemma_symbol_injective(
            (a[1] as int % 16) * 4 + a[2] as int / 64,
            (b[1] as int % 16) * 4 + b[2] as int / 64,
        );
        lemma_symbol_injective(a[2] as int % 64, b[2] as int % 64);
        assert(s.skip(4) =~= base64url(a.skip(3)));
        assert(t.skip(4) =~= base64url(b.skip(3)));
        lemma_base64url_injective(a.skip(3), b.skip(3));
        assert forall|i: int| 0 <= i < a.len() implies a[i] == b[i] by {
            if i >= 3 {
                assert(a.skip(3)[i - 3] == a[i]);
                assert(b.skip(3)[i - 3] == b[i]);
            }
        }
        assert(a =~= b);
    }
}

/// Two devices never share a detached header: the path of the header determines
/// the path of the device.
pub proof fn law_header_path_determines_device(a: Seq<char>, b: Seq<char>)
    requires
        header_path_of(a) == header_path_of(b),
    ensures
        a == b,
{
    let front = LUKS_HEADERS_STORAGE_DIR@ + "/"@;
    let x = base64url(encode_utf8(a));
    let y = base64url(encode_utf8(b));
    let n = front.len() as int;
    let whole = header_path_of(a);
    assert(header_path_of(a).len() == n + x.len() + LUKS_HEADER_FILE_SUFFIX@.len());
    assert(header_path_of(b).len() == n + y.len() + LUKS_HEADER_FILE_SUFFIX@.len());
    assert(x.len() == y.len());
    assert(whole.subrange(n, n + x.len()) =~= x);
    assert(header_path_of(b).subrange(n, n + y.len()) =~= y);
    lemma_base64url_injective(encode_utf8(a), encode_utf8(b));
    encode_utf8_decode_utf8(a);
    encode_utf8_decode_utf8(b);
}

/// The characters of the URL-safe alphabet.
pub open spec fn is_url_safe(c: char) -> bool {
    ('A' <= c && c <= 'Z') || ('a' <= c && c <= 'z') || ('0' <= c && c <= '9') || c == '-' || c
        == '_'
}

proof fn lemma_symbol_is_url_safe(v: int)
    requires
        0 <= v < 64,
    ensures
        is_url_safe(base64_symbol(v)),
{
}

proof fn lemma_base64url_is_url_safe(b: Seq<u8>)
    ensures
        forall|i: int| 0 <= i < base64url(b).len() ==> is_url_safe(#[trigger] base64url(b)[i]),
    decreases b.len(),
{
    if b.len() == 1 {
        lemma_symbol_is_url_safe(b[0] as int / 4);
        lemma_symbol_is_url_safe((b[0] as int % 4) * 16);
    } else if b.len() == 2 {
        lemma_symbol_is_url_safe(b[0] as int / 4);
        lemma_symbol_is_url_safe((b[0] as int % 4) * 16 + b[1] as int / 16);
        lemma_symbol_is_url_safe((b[1] as int % 16) * 4);
    } else if b.len() >= 3 {
        lemma_base64url_is_url_safe(b.skip(3));
        lemma_symbol_is_url_safe(b[0] as int / 4);
        lemma_symbol_is_url_safe((b[0] as int % 4) * 16 + b[1] as int / 16);
        lemma_symbol_is_url_safe((b[1] as int % 16) * 4 + b[2] as int / 64);
        lemma_symbol_is_url_safe(b[2] as int % 64);
        let tail = base64url(b.skip(3));
        assert forall|i: int| 0 <= i < base64url(b).len() implies is_url_safe(
            #[trigger] base64url(b)[i],
        ) by {
            if i >= 4 {
                assert(base64url(b)[i] == tail[i - 4]);
            }
        }
    }
}

/// A header stands directly in the header directory: whatever the device path
/// holds, the file's name is made of letters, digits, `-` and `_`, followed by the
/// suffix, and so has no slash in it.
pub proof fn law_header_stays_in_directory(device_path: Seq<char>)
    ensures
        exists|stem: Seq<char>|
            {
                &&& header_path_of(device_path) == LUKS_HEADERS_STORAGE_DIR@ + "/"@ + stem
                    + LUKS_HEADER_FILE_SUFFIX@
                &&& forall|i: int| 0 <= i < stem.len() ==> is_url_safe(#[trigger] stem[i])
                &&& !(#[trigger] (stem + LUKS_HEADER_FILE_SUFFIX@)).contains('/')
            },
{
    reveal_strlit(".header");
    let stem = base64url(encode_utf8(device_path));
    let name = stem + LUKS_HEADER_FILE_SUFFIX@;
    lemma_base64url_is_url_safe(encode_utf8(device_path));
    assert(!name.contains('/')) by {
        assert forall|i: int| 0 <= i < name.len() implies name[i] != '/' by {
            if i < stem.len() {
                assert(is_url_safe(stem[i]));
            } else {
                assert(name[i] == ".header"@[i - stem.len()]);
            }
        }
    }
}

/// The six bits that a symbol of the URL-safe alphabet stands for.
pub open spec fn base64_value(c: char) -> int {
    if 'A' <= c && c <= 'Z' {
        c as int - 65
    } else if 'a' <= c && c <= 'z' {
        c as int - 71
    } else if '0' <= c && c <= '9' {
        c as int + 4
    } else if c == '-' {
        62
    } else {
        63
    }
}

/// The bytes are read back out of their Base64 text: every three of them out of four
/// symbols, and one or two at the end out of two or three, with nothing behind them.
pub proof fn law_base64_is_read_back(b: Seq<u8>, i: int)
    requires
        0 <= i,
        3 * i < b.len(),
    ensures
        ({
            let s = base64url(b);
            let n = 4 * i;
            let left = b.len() - 3 * i;
            let x = b[3 * i] as int;
            let y = b[3 * i + 1] as int;
            let z = b[3 * i + 2] as int;
            &&& left >= 3 ==> s.len() >= n + 4 && base64_value(s[n]) * 262144 + base64_value(
                s[n + 1],
            ) * 4096 + base64_value(s[n + 2]) * 64 + base64_value(s[n + 3]) == x * 65536 + y * 256
                + z
            &&& left == 2 ==> s.len() == n + 3 && base64_value(s[n]) * 4096 + base64_value(
                s[n + 1],
            ) * 64 + base64_value(s[n + 2]) == x * 1024 + y * 4
            &&& left == 1 ==> s.len() == n + 2 && base64_value(s[n]) * 64 + base64_value(s[n + 1])
                == x * 16
            &&& left == 3 ==> s.len() == n + 4
        }),
    decreases b.len(),
{
    lemma_base64url_len(b);
    let s = base64url(b);
    if i > 0 {
        law_base64_is_read_back(b.skip(3), i - 1);
        let t = base64url(b.skip(3));
        assert(s.skip(4) =~= t);
        assert forall|j: int| 0 <= j < t.len() implies #[trigger] t[j] == s[j + 4] by {}
        assert forall|j: int| 0 <= j < b.len() - 3 implies #[trigger] b.skip(3)[j] == b[j + 3] by {}
        let n = 4 * (i - 1);
        let m = 3 * (i - 1);
        assert(b.skip(3)[m] == b[m + 3]);
        if b.len() - 3 * i >= 2 {
            assert(b.skip(3)[m + 1] == b[m + 4]);
        }
        if b.len() - 3 * i >= 3 {
            assert(b.skip(3)[m + 2] == b[m + 5]);
        }
    } else {
        let x = b[0] as int;
        assert(s[0] == base64_symbol(x / 4));
        if b.len() >= 3 {
            assert(base64url(b.skip(3)).len() == s.len() - 4);
        }
    }
}

/// The name of a header between its directory and its suffix is the Base64 text of the
/// whole path of its device.
pub proof fn law_header_is_named_after_the_device(device_path: Seq<char>)
    ensures
        header_path_of(device_path) == "/run/confidential-containers/cdh/luks-headers"@ + "/"@
            + base64url(encode_utf8(device_path)) + ".header"@,
        decode_utf8(encode_utf8(device_path)) == device_path,
{
    encode_utf8_decode_utf8(device_path);
}

} // verus!
