//! The hardware inventory type and the parsing of GPU enumeration output.
//! The host gathers the raw system facts; the parsing of the enumeration
//! commands' output into vendor strings is done here.

use vstd::prelude::*;
use crate::text::{contains_seq, contains_str, trim_spec, trim_str};

verus! {

/// The descriptive inventory handed to the UI.  The worker core consumes
/// only `gpu_info`, the vendor-string list.
pub struct HardwareInfo {
    pub cpu_name: String,
    pub cpu_cores: usize,
    pub cpu_frequency: u64,
    pub total_memory: u64,
    pub total_swap: u64,
    pub os_name: String,
    pub os_version: String,
    pub gpu_info: Vec<String>,
}

/// The position of the first newline in `s`, or its length.
pub open spec fn first_newline(s: Seq<char>) -> int
    decreases s.len(),
{
    if s.len() == 0 {
        0
    } else if s[0] == '\n' {
        0
    } else {
        1 + first_newline(s.drop_first())
    }
}

/// `s` split at newlines, the separators dropped.  An empty text has no
/// lines; a trailing newline ends the last line without opening another.
pub open spec fn lines_of(s: Seq<char>) -> Seq<Seq<char>>
    decreases s.len(),
{
    if s.len() == 0 {
        Seq::empty()
    } else {
        let nl = first_newline(s);
        if 0 <= nl < s.len() {
            seq![s.subrange(0, nl)] + lines_of(s.subrange(nl + 1, s.len() as int))
        } else {
            seq![s]
        }
    }
}

proof fn lemma_first_newline_at(s: Seq<char>, i: int)
    requires
        0 <= i <= s.len(),
        forall|k: int| 0 <= k < i ==> s[k] != '\n',
        i < s.len() ==> s[i] == '\n',
    ensures
        first_newline(s) == i,
    decreases i,
{
    if s.len() == 0 {
    } else if i == 0 {
    } else {
        let t = s.drop_first();
        assert(forall|k: int| 0 <= k < i - 1 ==> t[k] != '\n');
        lemma_first_newline_at(t, i - 1);
    }
}

/// Split command output into its lines.
pub fn split_lines(s: &str) -> (r: Vec<String>)
    ensures
        r.deep_view() =~= lines_of(s@),
    decreases s@.len(),
{
    let n = s.unicode_len();
    if n == 0 {
        let empty: Vec<String> = Vec::new();
        return empty;
    }
    let mut nl: usize = 0;
    while nl < n && s.get_char(nl) != '\n'
        invariant
            n == s@.len(),
            nl <= n,
            forall|k: int| 0 <= k < nl ==> s@[k] != '\n',
        decreases n - nl,
    {
        nl += 1;
    }
    proof {
        lemma_first_newline_at(s@, nl as int);
    }
    if nl == n {
        let mut r: Vec<String> = Vec::new();
        r.push(String::from_str(s));
        return r;
    }
    let head = s.substring_char(0, nl);
    let tail = s.substring_char(nl + 1, n);
    let rest = split_lines(tail);
    let mut r: Vec<String> = Vec::new();
    r.push(String::from_str(head));
    let mut i: usize = 0;
    while i < rest.len()
        invariant
            i <= rest@.len(),
            r@.len() == i + 1,
            r.deep_view()[0] == s@.subrange(0, first_newline(s@)),
            forall|k: int| 0 <= k < i ==> r.deep_view()[k + 1] == rest.deep_view()[k],
        decreases rest@.len() - i,
    {
        let line = rest[i].clone();
        r.push(line);
        i += 1;
    }
    assert(r.deep_view() =~= lines_of(s@));
    r
}

/// A display-controller line of the native platform's device enumeration.
pub open spec fn is_display_line(l: Seq<char>) -> bool {
    contains_seq(l, "VGA"@) || contains_seq(l, "3D"@) || contains_seq(l, "Display"@)
}

/// A graphics line of the container platform's profiler output.
pub open spec fn is_chipset_line(l: Seq<char>) -> bool {
    contains_seq(l, "Chipset Model:"@)
}

/// The display lines kept from an enumeration, trimmed, in order.
pub open spec fn kept_lines(lines: Seq<Seq<char>>, chipset: bool) -> Seq<Seq<char>>
    decreases lines.len(),
{
    if lines.len() == 0 {
        Seq::empty()
    } else {
        kept_lines(lines.drop_last(), chipset) + (if (chipset && is_chipset_line(lines.last()))
            || (!chipset && is_display_line(lines.last())) {
            seq![trim_spec(lines.last())]
        } else {
            Seq::empty()
        })
    }
}

fn filter_gpu_lines(out: &str, chipset: bool) -> (r: Vec<String>)
    ensures
        r.deep_view() =~= kept_lines(lines_of(out@), chipset),
{
    let lines = split_lines(out);
    let mut r: Vec<String> = Vec::new();
    let mut i: usize = 0;
    while i < lines.len()
        invariant
            i <= lines@.len(),
            lines.deep_view() == lines_of(out@),
            r.deep_view() =~= kept_lines(lines.deep_view().subrange(0, i as int), chipset),
        decreases lines@.len() - i,
    {
        let line = lines[i].as_str();
        assert(lines.deep_view()[i as int] == lines@[i as int]@);
        let keep = if chipset {
            contains_str(line, "Chipset Model:")
        } else {
            contains_str(line, "VGA") || contains_str(line, "3D") || contains_str(line, "Display")
        };
        if keep {
            let trimmed = trim_str(line);
            r.push(String::from_str(trimmed));
        }
        proof {
            let pre = lines.deep_view().subrange(0, i + 1);
            assert(pre.drop_last() =~= lines.deep_view().subrange(0, i as int));
            assert(pre.last() == lines.deep_view()[i as int]);
        }
        i += 1;
    }
    assert(lines.deep_view().subrange(0, lines.deep_view().len() as int) =~= lines.deep_view());
    r
}

/// Parse the native platform's device enumeration into the vendor-string
/// list: the display-controller lines, trimmed.
pub fn parse_display_controllers(out: &str) -> (r: Vec<String>)
    ensures
        r.deep_view() =~= kept_lines(lines_of(out@), false),
{
    filter_gpu_lines(out, false)
}

/// Parse the container platform's profiler output into the vendor-string
/// list: the chipset lines, trimmed.
pub fn parse_chipset_models(out: &str) -> (r: Vec<String>)
    ensures
        r.deep_view() =~= kept_lines(lines_of(out@), true),
{
    filter_gpu_lines(out, true)
}

/// An empty enumeration is reported as one placeholder entry, so the UI
/// always has something to show.
pub fn gpu_list_or_placeholder(list: Vec<String>) -> (r: Vec<String>)
    ensures
        list@.len() > 0 ==> r == list,
        list@.len() == 0 ==> r.deep_view() =~= seq!["No GPU detected"@],
{
    if list.len() == 0 {
        let mut r: Vec<String> = Vec::new();
        r.push(String::from_str("No GPU detected"));
        r
    } else {
        list
    }
}

} // verus!
