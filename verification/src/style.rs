//! Style-source resolution: classifying a style reference as a remote URL, an
//! inline definition or a local path, and naming the temporary file that an
//! inline definition is materialized to. Temporary-file names embed a process
//! id and a per-renderer counter; distinct counters give distinct names.
use vstd::prelude::*;
use vstd::string::StrSliceExecFns;
use vstd::string::StringExecFns;
use crate::decimal::{dec_str, lemma_dec_str_injective, u64_to_string};

verus! {

/// How a style reference is to be handed to the rendering engine.
#[derive(PartialEq, Eq, Structural, Clone, Copy, Debug)]
pub enum StyleKind {
    /// `http://`, `https://` or `file://`: hand to the engine's URL loader.
    Url,
    /// Leading `{`: a serialized style document, materialized to a temporary
    /// file first, because the engine only loads from URLs or paths.
    Inline,
    /// Anything else: hand to the engine's path loader.
    LocalPath,
}

pub open spec fn has_prefix(s: Seq<char>, p: Seq<char>) -> bool {
    p.len() <= s.len() && s.subrange(0, p.len() as int) == p
}

/// Classification is prefix-based and checked in this priority: remote URL
/// schemes first, then a leading brace, then everything else.
pub open spec fn style_kind_of(s: Seq<char>) -> StyleKind {
    if has_prefix(s, "http://"@) || has_prefix(s, "https://"@) || has_prefix(s, "file://"@) {
        StyleKind::Url
    } else if s.len() > 0 && s[0] == '{' {
        StyleKind::Inline
    } else {
        StyleKind::LocalPath
    }
}

/// Does `s` start with `p`? (Character-wise; both may be non-ASCII.)
fn is_prefix(s: &str, p: &str) -> (r: bool)
    ensures
        r == has_prefix(s@, p@),
{
    let s_len = s.unicode_len();
    let p_len = p.unicode_len();
    if p_len > s_len {
        return false;
    }
    let mut i: usize = 0;
    while i < p_len
        invariant
            0 <= i <= p_len,
            p_len <= s_len,
            s_len == s@.len(),
            p_len == p@.len(),
            forall|j: int| 0 <= j < i ==> s@[j] == p@[j],
        decreases p_len - i,
    {
        if s.get_char(i) != p.get_char(i) {
            assert(s@.subrange(0, p@.len() as int)[i as int] != p@[i as int]);
            return false;
        }
        i += 1;
    }
    assert(s@.subrange(0, p@.len() as int) =~= p@);
    true
}

/// Classifies a style reference string.
pub fn classify_style(style: &str) -> (k: StyleKind)
    ensures
        k == style_kind_of(style@),
{
    if is_prefix(style, "http://") || is_prefix(style, "https://") || is_prefix(style, "file://") {
        StyleKind::Url
    } else if style.unicode_len() > 0 && style.get_char(0) == '{' {
        StyleKind::Inline
    } else {
        StyleKind::LocalPath
    }
}

/// The file name for the inline style materialized under counter value
/// `counter` by the renderer of process `pid`.
pub open spec fn temp_name(pid: nat, counter: nat) -> Seq<char> {
    "mlnative_style_"@ + dec_str(pid) + "_"@ + dec_str(counter) + ".json"@
}

/// The full path of that file under the directory prefix `dir`.
pub open spec fn temp_path(dir: Seq<char>, pid: nat, counter: nat) -> Seq<char> {
    dir + temp_name(pid, counter)
}

/// Within one process (and one directory), distinct counter values give
/// distinct temporary-file paths.
pub proof fn lemma_temp_path_injective(dir: Seq<char>, pid: nat, c1: nat, c2: nat)
    requires
        c1 != c2,
    ensures
        temp_path(dir, pid, c1) != temp_path(dir, pid, c2),
{
    if temp_path(dir, pid, c1) == temp_path(dir, pid, c2) {
        let head = dir + "mlnative_style_"@ + dec_str(pid) + "_"@;
        let s1 = temp_path(dir, pid, c1);
        let s2 = temp_path(dir, pid, c2);
        assert(s1 =~= head + dec_str(c1) + ".json"@);
        assert(s2 =~= head + dec_str(c2) + ".json"@);
        let h = head.len() as int;
        assert(s1.len() == head.len() + dec_str(c1).len() + ".json"@.len());
        assert(s2.len() == head.len() + dec_str(c2).len() + ".json"@.len());
        assert(dec_str(c1).len() == dec_str(c2).len());
        assert(dec_str(c1) =~= s1.subrange(h, h + dec_str(c1).len() as int));
        assert(dec_str(c2) =~= s2.subrange(h, h + dec_str(c2).len() as int));
        lemma_dec_str_injective(c1, c2);
    }
}

/// Builds the temporary-file path for the given directory prefix, process id
/// and counter value.
pub fn make_temp_path(dir: &str, pid: u64, counter: u64) -> (r: String)
    ensures
        r@ == temp_path(dir@, pid as nat, counter as nat),
{
    let mut r = String::from_str(dir);
    r.append("mlnative_style_");
    r.append(u64_to_string(pid).as_str());
    r.append("_");
    r.append(u64_to_string(counter).as_str());
    r.append(".json");
    assert(r@ =~= temp_path(dir@, pid as nat, counter as nat));
    r
}

} // verus!
