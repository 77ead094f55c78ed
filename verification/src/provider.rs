//! Provider classification: a pure, total map from a URL string to the tag of
//! the cloud vendor that served it, by case-insensitive substring matching
//! with a fixed rule order.

use vstd::prelude::*;
use vstd::string::*;

verus! {

/// The classification label identifying which cloud vendor served a URL,
/// inferred from the URL text only.
#[derive(Clone, Copy, Debug, PartialEq, Eq, Structural)]
pub enum Provider {
    AwsS3,
    CloudflareR2,
    GoogleCloudStorage,
    AzureBlob,
    Unknown,
}

/// Case-folded code of a character: ASCII capital letters map to their small
/// counterparts, every other character maps to its own code.
pub open spec fn lower_code(c: char) -> u32 {
    if 65 <= c as u32 && c as u32 <= 90 {
        (c as u32 + 32) as u32
    } else {
        c as u32
    }
}

/// `pat` occurs at position `i` of `s`, compared case-insensitively.
pub open spec fn matches_at(s: Seq<char>, pat: Seq<char>, i: int) -> bool {
    forall|k: int| i <= k < i + pat.len() ==> lower_code(#[trigger] s[k]) == lower_code(pat[k - i])
}

/// `pat` occurs somewhere in `s`, compared case-insensitively.
pub open spec fn contains_ci(s: Seq<char>, pat: Seq<char>) -> bool {
    exists|i: int| 0 <= i && i + pat.len() <= s.len() && matches_at(s, pat, i)
}

fn char_lower_code(c: char) -> (r: u32)
    ensures
        r == lower_code(c),
{
    let v: u32 = c as u32;
    if 65 <= v && v <= 90 {
        v + 32
    } else {
        v
    }
}

/// Whether `pat` occurs in `s` when both are compared case-insensitively.
pub fn contains_substring_ci(s: &str, pat: &str) -> (r: bool)
    ensures
        r == contains_ci(s@, pat@),
{
    let n: usize = s.unicode_len();
    let m: usize = pat.unicode_len();
    if m == 0 {
        proof {
            assert(matches_at(s@, pat@, 0));
        }
        return true;
    }
    if m > n {
        proof {
            assert(!contains_ci(s@, pat@)) by {
                if contains_ci(s@, pat@) {
                    let t = choose|t: int|
                        0 <= t && t + pat@.len() <= s@.len() && matches_at(s@, pat@, t);
                    assert(false);
                }
            }
        }
        return false;
    }
    let mut i: usize = 0;
    while i <= n - m
        invariant
            1 <= m <= n,
            n == s@.len(),
            m == pat@.len(),
            i <= n - m + 1,
            forall|t: int| 0 <= t < i ==> !matches_at(s@, pat@, t),
        decreases n - m + 1 - i,
    {
        let mut j: usize = 0;
        let mut is_match: bool = true;
        while j < m
            invariant
                1 <= m <= n,
                n == s@.len(),
                m == pat@.len(),
                i <= n - m,
                j <= m,
                is_match ==> forall|k: int|
                    i <= k < i + j ==> lower_code(#[trigger] s@[k]) == lower_code(pat@[k - i]),
                !is_match ==> !matches_at(s@, pat@, i as int),
            decreases m - j,
        {
            if is_match {
                let a: u32 = char_lower_code(s.get_char(i + j));
                let b: u32 = char_lower_code(pat.get_char(j));
                if a != b {
                    proof {
                        let k: int = i + j;
                        assert(lower_code(s@[k]) != lower_code(pat@[k - i]));
                    }
                    is_match = false;
                }
            }
            j += 1;
        }
        if is_match {
            proof {
                assert(matches_at(s@, pat@, i as int));
            }
            return true;
        }
        i += 1;
    }
    proof {
        assert(!contains_ci(s@, pat@)) by {
            if contains_ci(s@, pat@) {
                let t = choose|t: int|
                    0 <= t && t + pat@.len() <= s@.len() && matches_at(s@, pat@, t);
                assert(t < i);
                assert(!matches_at(s@, pat@, t));
            }
        }
    }
    false
}

/// The classification rules, first match wins:
/// Amazon S3, then Cloudflare R2, then Google Cloud Storage, then Azure Blob;
/// any URL matching none of the patterns is from an unknown provider.
pub open spec fn classify_spec(u: Seq<char>) -> Provider {
    if contains_ci(u, "amazonaws.com"@) || contains_ci(u, "s3."@) {
        Provider::AwsS3
    } else if contains_ci(u, "r2.dev"@) || contains_ci(u, "r2.cloudflarestorage.com"@) {
        Provider::CloudflareR2
    } else if contains_ci(u, "googleapis.com"@) || contains_ci(u, "storage.cloud.google.com"@) {
        Provider::GoogleCloudStorage
    } else if contains_ci(u, "blob.core.windows.net"@) {
        Provider::AzureBlob
    } else {
        Provider::Unknown
    }
}

/// Classify the provider that serves `url`. Pure and total: every URL gets
/// exactly the tag that the fixed rule order assigns to it.
pub fn classify(url: &str) -> (p: Provider)
    ensures
        p == classify_spec(url@),
{
    if contains_substring_ci(url, "amazonaws.com") || contains_substring_ci(url, "s3.") {
        Provider::AwsS3
    } else if contains_substring_ci(url, "r2.dev") || contains_substring_ci(
        url,
        "r2.cloudflarestorage.com",
    ) {
        Provider::CloudflareR2
    } else if contains_substring_ci(url, "googleapis.com") || contains_substring_ci(
        url,
        "storage.cloud.google.com",
    ) {
        Provider::GoogleCloudStorage
    } else if contains_substring_ci(url, "blob.core.windows.net") {
        Provider::AzureBlob
    } else {
        Provider::Unknown
    }
}

/// The textual tag of each provider.
pub open spec fn tag_spec(p: Provider) -> Seq<char> {
    match p {
        Provider::AwsS3 => "aws-s3"@,
        Provider::CloudflareR2 => "cloudflare-r2"@,
        Provider::GoogleCloudStorage => "google-cloud-storage"@,
        Provider::AzureBlob => "azure-blob"@,
        Provider::Unknown => "unknown"@,
    }
}

impl Provider {
    /// The textual tag of this provider.
    pub fn tag(&self) -> (r: String)
        ensures
            r@ == tag_spec(*self),
    {
        match self {
            Provider::AwsS3 => String::from_str("aws-s3"),
            Provider::CloudflareR2 => String::from_str("cloudflare-r2"),
            Provider::GoogleCloudStorage => String::from_str("google-cloud-storage"),
            Provider::AzureBlob => String::from_str("azure-blob"),
            Provider::Unknown => String::from_str("unknown"),
        }
    }
}

/// The provider tag of `url`, as text.
pub fn detect_provider(url: &str) -> (r: String)
    ensures
        r@ == tag_spec(classify_spec(url@)),
{
    let p: Provider = classify(url);
    p.tag()
}

/// Classification is total and respects the rule order: the Amazon patterns
/// take precedence over every later rule, the Cloudflare patterns over the
/// rules after them, and so on; a URL matching no pattern is `Unknown`.
pub proof fn lemma_classify_rule_order(u: Seq<char>)
    ensures
        contains_ci(u, "amazonaws.com"@) || contains_ci(u, "s3."@) ==> classify_spec(u)
            == Provider::AwsS3,
        !(contains_ci(u, "amazonaws.com"@) || contains_ci(u, "s3."@)) && (contains_ci(u, "r2.dev"@)
            || contains_ci(u, "r2.cloudflarestorage.com"@)) ==> classify_spec(u)
            == Provider::CloudflareR2,
        !(contains_ci(u, "amazonaws.com"@) || contains_ci(u, "s3."@)) && !(contains_ci(u, "r2.dev"@)
            || contains_ci(u, "r2.cloudflarestorage.com"@)) && (contains_ci(u, "googleapis.com"@)
            || contains_ci(u, "storage.cloud.google.com"@)) ==> classify_spec(u)
            == Provider::GoogleCloudStorage,
        !(contains_ci(u, "amazonaws.com"@) || contains_ci(u, "s3."@)) && !(contains_ci(u, "r2.dev"@)
            || contains_ci(u, "r2.cloudflarestorage.com"@)) && !(contains_ci(u, "googleapis.com"@)
            || contains_ci(u, "storage.cloud.google.com"@)) && contains_ci(
            u,
            "blob.core.windows.net"@,
        ) ==> classify_spec(u) == Provider::AzureBlob,
        !(contains_ci(u, "amazonaws.com"@) || contains_ci(u, "s3."@)) && !(contains_ci(u, "r2.dev"@)
            || contains_ci(u, "r2.cloudflarestorage.com"@)) && !(contains_ci(u, "googleapis.com"@)
            || contains_ci(u, "storage.cloud.google.com"@)) && !contains_ci(
            u,
            "blob.core.windows.net"@,
        ) ==> classify_spec(u) == Provider::Unknown,
{
}

} // verus!
