use vstd::prelude::*;
use vstd::string::StrSliceExecFns;
use vstd::string::StringExecFns;
use vstd::utf8::decode_utf8;
use vstd::utf8::valid_utf8;

use crate::error::MatrixAPIError;

verus! {

#[verifier::external_type_specification]
#[verifier::external_body]
pub struct ExUtf8Error(std::str::Utf8Error);

/// Relies on std::str::from_utf8: it succeeds exactly on UTF-8 input and then
/// holds the characters that the bytes encode.
#[verifier::external_body]
fn text_of_bytes(b: &[u8]) -> (r: Result<&str, std::str::Utf8Error>)
    ensures
        r is Ok <==> valid_utf8(b@),
        r matches Ok(s) ==> s@ == decode_utf8(b@),
{
    std::str::from_utf8(b)
}

/// Unicode's White_Space property, the whitespace that trimming removes.
pub open spec fn white_space(c: char) -> bool {
    let u = c as u32;
    (0x9 <= u <= 0xd) || u == 0x20 || u == 0x85 || u == 0xa0 || u == 0x1680 || (0x2000 <= u
        <= 0x200a) || u == 0x2028 || u == 0x2029 || u == 0x202f || u == 0x205f || u == 0x3000
}

pub fn is_white_space(c: char) -> (r: bool)
    ensures
        r == white_space(c),
{
    let u = c as u32;
    (0x9 <= u && u <= 0xd) || u == 0x20 || u == 0x85 || u == 0xa0 || u == 0x1680 || (0x2000 <= u
        && u <= 0x200a) || u == 0x2028 || u == 0x2029 || u == 0x202f || u == 0x205f || u == 0x3000
}

/// `t` is `s` without its leading and trailing whitespace: a run `s[i..j]`
/// with only whitespace before and after it, that neither starts nor ends
/// with whitespace.
pub open spec fn is_trim_of(s: Seq<char>, t: Seq<char>) -> bool {
    exists|i: int, j: int|
        {
            &&& 0 <= i <= j <= s.len()
            &&& t == s.subrange(i, j)
            &&& forall|k: int| 0 <= k < i ==> white_space(#[trigger] s[k])
            &&& forall|k: int| j <= k < s.len() ==> white_space(#[trigger] s[k])
            &&& i < j ==> !white_space(s[i]) && !white_space(s[j - 1])
        }
}

/// Whitespace around a text that neither starts nor ends with whitespace
/// trims away to exactly that text, and to nothing else.
pub proof fn lemma_trim_strips_only_whitespace(
    before: Seq<char>,
    core: Seq<char>,
    after: Seq<char>,
    t: Seq<char>,
)
    requires
        forall|k: int| 0 <= k < before.len() ==> white_space(#[trigger] before[k]),
        forall|k: int| 0 <= k < after.len() ==> white_space(#[trigger] after[k]),
        core.len() > 0,
        !white_space(core[0]),
        !white_space(core[core.len() - 1]),
    ensures
        is_trim_of(before + core + after, t) <==> t == core,
{
    let s = before + core + after;
    let a = before.len() as int;
    let b = a + core.len();
    assert(s.subrange(a, b) =~= core);
    assert(forall|k: int| 0 <= k < a ==> s[k] == before[k]);
    assert(forall|k: int| b <= k < s.len() ==> s[k] == after[k - b]);
    assert(forall|k: int| a <= k < b ==> s[k] == core[k - a]);
    if is_trim_of(s, t) {
        let (i, j) = choose|i: int, j: int|
            {
                &&& 0 <= i <= j <= s.len()
                &&& t == s.subrange(i, j)
                &&& forall|k: int| 0 <= k < i ==> white_space(#[trigger] s[k])
                &&& forall|k: int| j <= k < s.len() ==> white_space(#[trigger] s[k])
                &&& i < j ==> !white_space(s[i]) && !white_space(s[j - 1])
            };
        assert(s[a] == core[0]);
        assert(s[b - 1] == core[core.len() - 1]);
        if i == j {
            if a < i {
                assert(white_space(s[a]));
            } else {
                assert(white_space(s[a]));
            }
        }
        assert(i <= a) by {
            if i > a {
                assert(white_space(s[a]));
            }
        }
        assert(i >= a) by {
            if i < a {
                assert(white_space(s[i]));
            }
        }
        assert(j >= b) by {
            if j < b {
                assert(white_space(s[b - 1]));
            }
        }
        assert(j <= b) by {
            if j > b {
                assert(white_space(s[j - 1]));
            }
        }
        assert(t =~= core);
    }
    if t == core {
        assert(is_trim_of(s, t)) by {
            let i = a;
            let j = b;
            assert(forall|k: int| 0 <= k < i ==> white_space(#[trigger] s[k]));
            assert(forall|k: int| j <= k < s.len() ==> white_space(#[trigger] s[k]));
        }
    }
}

/// `s` without leading and trailing whitespace.
pub fn trim_text(s: &str) -> (r: &str)
    ensures
        is_trim_of(s@, r@),
{
    let n = s.unicode_len();
    let mut i: usize = 0;
    while i < n && is_white_space(s.get_char(i))
        invariant
            n == s@.len(),
            i <= n,
            forall|k: int| 0 <= k < i ==> white_space(#[trigger] s@[k]),
        decreases n - i,
    {
        i = i + 1;
    }
    let mut j: usize = n;
    while j > i && is_white_space(s.get_char(j - 1))
        invariant
            n == s@.len(),
            i <= j <= n,
            i < n ==> !white_space(s@[i as int]),
            forall|k: int| j <= k < n ==> white_space(#[trigger] s@[k]),
        decreases j - i,
    {
        j = j - 1;
    }
    let r = s.substring_char(i, j);
    assert(forall|k: int| 0 <= k < i ==> white_space(#[trigger] s@[k]));
    r
}

/// Reads the secret store's output as the access token: the text with
/// surrounding whitespace removed. Output that is not UTF-8 fails with
/// `AccessTokenError`.
pub fn access_token_from_output(stdout: &[u8]) -> (r: Result<String, MatrixAPIError>)
    ensures
        valid_utf8(stdout@) ==> (r matches Ok(t) && is_trim_of(decode_utf8(stdout@), t@)),
        !valid_utf8(stdout@) ==> r matches Err(MatrixAPIError::AccessTokenError(_)),
{
    match text_of_bytes(stdout) {
        Ok(text) => Ok(String::from_str(trim_text(text))),
        Err(e) => Err(MatrixAPIError::AccessTokenError(e.to_string())),
    }
}

} // verus!
