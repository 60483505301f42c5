//! Small helpers on text.

use vstd::prelude::*;
use vstd::string::{StringExecFns, StringSliceAdditionalSpecFns};
use vstd::utf8::encode_utf8_decode_utf8;

verus! {

/// Whether two texts hold the same characters.
///
/// Compares the UTF-8 encodings byte by byte; an encoding belongs to one text
/// only, so equal bytes mean equal characters.
pub fn same_text(left: &str, right: &str) -> (same: bool)
    ensures
        same == (left@ == right@),
{
    let a = left.as_bytes();
    let b = right.as_bytes();
    proof {
        encode_utf8_decode_utf8(left@);
        encode_utf8_decode_utf8(right@);
    }
    if a.len() != b.len() {
        return false;
    }
    let mut i: usize = 0;
    while i < a.len()
        invariant
            a@ == left.spec_bytes(),
            b@ == right.spec_bytes(),
            a.len() == b.len(),
            i <= a.len(),
            forall|j: int| 0 <= j < i ==> a@[j] == b@[j],
        decreases a.len() - i,
    {
        if a[i] != b[i] {
            return false;
        }
        i += 1;
    }
    assert(a@ =~= b@);
    true
}

/// Every character of `text` is an ASCII space. Holds of the empty text.
pub open spec fn only_spaces(text: Seq<char>) -> bool {
    forall|i: int| 0 <= i < text.len() ==> text[i] == ' '
}

/// Whether `word` is empty or made of ASCII spaces alone. Tabs, newlines and
/// other whitespace do not count as blank.
pub fn empty_or_only_spaces(word: &str) -> (blank: bool)
    ensures
        blank == only_spaces(word@),
{
    for c in it: word.chars()
        invariant
            it.seq() == word@,
            forall|i: int| 0 <= i < it.index() ==> word@[i] == ' ',
    {
        if c != ' ' {
            assert(word@[it.index()] != ' ');
            return false;
        }
    }
    true
}

/// The link to a repo: `http://` or `https://`, the provider, a slash and the
/// repo; on `github.com`, which alone has a known form for it, followed by
/// `/tree/` and the branch.
pub open spec fn repo_link_text(
    provider: Seq<char>,
    repo: Seq<char>,
    branch: Seq<char>,
    https: bool,
) -> Seq<char> {
    let scheme = if https {
        "https://"@
    } else {
        "http://"@
    };
    let link = scheme + provider + "/"@ + repo;
    if provider == "github.com"@ {
        link + "/tree/"@ + branch
    } else {
        link
    }
}

/// The link to the branch of a repo at a git provider, as far as the
/// provider's form of such links is known.
pub fn repo_link(provider: &str, repo: &str, branch: &str, https: bool) -> (link: String)
    ensures
        link@ == repo_link_text(provider@, repo@, branch@, https),
{
    let mut link = if https {
        "https://".to_owned()
    } else {
        "http://".to_owned()
    };
    link.append(provider);
    link.append("/");
    link.append(repo);
    if same_text(provider, "github.com") {
        link.append("/tree/");
        link.append(branch);
    }
    link
}

} // verus!
