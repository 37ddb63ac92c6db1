//! Port-to-process resolution: parsing the output of the OS connection
//! query into the owning process id.
//!
//! Two strategies exist. The enumeration strategy scans a textual
//! connection table line by line for the first line containing the `:port`
//! suffix and reads that line's last whitespace-separated token as the id;
//! later lines are never considered. The descriptor-query strategy parses
//! the whole trimmed output as a single decimal id. Output that yields no
//! parseable id means "no owner": the port is reported free, never an
//! error.

use vstd::prelude::*;

use crate::digits::{append_dec_u16, dec_str, parse_u32, parse_u32_spec};
use crate::platform::OsFamily;
use crate::text::{char_is_space, contains_seq, contains_str, is_space};

verus! {

/// The literal suffix a matching connection-table line must contain.
pub open spec fn port_pattern_spec(port: u16) -> Seq<char> {
    seq![':'] + dec_str(port as nat)
}

pub fn port_pattern(port: u16) -> (s: String)
    ensures
        s@ == port_pattern_spec(port),
{
    let mut s = String::from_str(":");
    proof {
        reveal_strlit(":");
        assert(s@ =~= seq![':']);
    }
    append_dec_u16(port, &mut s);
    s
}

/// `s` with trailing ASCII whitespace removed.
pub open spec fn trim_end(s: Seq<char>) -> Seq<char>
    decreases s.len(),
{
    if s.len() > 0 && is_space(s.last()) {
        trim_end(s.drop_last())
    } else {
        s
    }
}

/// `s` with leading ASCII whitespace removed.
pub open spec fn trim_start(s: Seq<char>) -> Seq<char>
    decreases s.len(),
{
    if s.len() > 0 && is_space(s.first()) {
        trim_start(s.drop_first())
    } else {
        s
    }
}

pub open spec fn trim(s: Seq<char>) -> Seq<char> {
    trim_start(trim_end(s))
}

/// The maximal run of non-whitespace characters at the end of `s`.
pub open spec fn suffix_token(s: Seq<char>) -> Seq<char>
    decreases s.len(),
{
    if s.len() > 0 && !is_space(s.last()) {
        suffix_token(s.drop_last()).push(s.last())
    } else {
        Seq::empty()
    }
}

/// The last whitespace-separated token of `s`; empty when `s` has none.
pub open spec fn last_token(s: Seq<char>) -> Seq<char> {
    suffix_token(trim_end(s))
}

/// The process id read from a connection-table line: its last token as a
/// strict decimal number.
pub open spec fn line_pid(line: Seq<char>) -> Option<u32> {
    parse_u32_spec(last_token(line))
}

/// Length of the first line of `s`: the prefix before the first newline.
pub open spec fn line_len(s: Seq<char>) -> nat
    decreases s.len(),
{
    if s.len() == 0 {
        0
    } else if s.first() == '\n' {
        0
    } else {
        (1 + line_len(s.drop_first())) as nat
    }
}

/// Line-by-line scan: the first line containing `pat` decides; its last
/// token is the id, parseable or not.
pub open spec fn listing_scan(s: Seq<char>, pat: Seq<char>) -> Option<u32>
    decreases s.len(),
{
    let n = line_len(s);
    if contains_seq(s.take(n as int), pat) {
        line_pid(s.take(n as int))
    } else if n >= s.len() {
        None
    } else {
        listing_scan(s.skip(n + 1 as int), pat)
    }
}

/// What the enumeration strategy yields on connection listing `output`.
pub open spec fn listing_pid(output: Seq<char>, port: u16) -> Option<u32> {
    listing_scan(output, port_pattern_spec(port))
}

/// What the descriptor-query strategy yields: the trimmed output, parsed
/// whole as one decimal id.
pub open spec fn query_pid(output: Seq<char>) -> Option<u32> {
    parse_u32_spec(trim(output))
}

/// The owner resolved from raw resolver-command output, by family.
pub open spec fn resolved_pid(family: OsFamily, port: u16, output: Seq<char>) -> Option<u32> {
    match family {
        OsFamily::Windows => listing_pid(output, port),
        OsFamily::Unix => query_pid(output),
    }
}

proof fn lemma_line_len(s: Seq<char>)
    ensures
        line_len(s) <= s.len(),
        forall|k: int| 0 <= k < line_len(s) ==> s[k] != '\n',
        line_len(s) < s.len() ==> s[line_len(s) as int] == '\n',
    decreases s.len(),
{
    if s.len() > 0 && s.first() != '\n' {
        lemma_line_len(s.drop_first());
        assert forall|k: int| 0 <= k < line_len(s) implies s[k] != '\n' by {
            if k > 0 {
                assert(s.drop_first()[k - 1] != '\n');
            }
        }
    }
}

proof fn lemma_line_len_is(s: Seq<char>, m: int)
    requires
        0 <= m <= s.len(),
        forall|k: int| 0 <= k < m ==> s[k] != '\n',
        m < s.len() ==> s[m] == '\n',
    ensures
        line_len(s) == m,
{
    lemma_line_len(s);
    if line_len(s) < m {
        assert(s[line_len(s) as int] != '\n');
    }
    if line_len(s) > m {
        assert(s[m] != '\n');
    }
}

proof fn lemma_trim_end_is(s: Seq<char>, e: int)
    requires
        0 <= e <= s.len(),
        forall|k: int| e <= k < s.len() ==> is_space(s[k]),
        e > 0 ==> !is_space(s[e - 1]),
    ensures
        trim_end(s) == s.take(e),
    decreases s.len(),
{
    if e == s.len() {
        assert(s.take(e) =~= s);
    } else {
        assert(is_space(s.last()));
        lemma_trim_end_is(s.drop_last(), e);
        assert(s.drop_last().take(e) =~= s.take(e));
    }
}

proof fn lemma_trim_start_is(s: Seq<char>, b: int)
    requires
        0 <= b <= s.len(),
        forall|k: int| 0 <= k < b ==> is_space(s[k]),
        b < s.len() ==> !is_space(s[b]),
    ensures
        trim_start(s) == s.skip(b),
    decreases b,
{
    if b == 0 {
        assert(s.skip(0) =~= s);
    } else {
        assert(is_space(s.first()));
        lemma_trim_start_is(s.drop_first(), b - 1);
        assert(s.drop_first().skip(b - 1) =~= s.skip(b));
    }
}

proof fn lemma_suffix_token_is(s: Seq<char>, b: int)
    requires
        0 <= b <= s.len(),
        forall|k: int| b <= k < s.len() ==> !is_space(s[k]),
        b > 0 ==> is_space(s[b - 1]),
    ensures
        suffix_token(s) == s.skip(b),
    decreases s.len(),
{
    if b == s.len() {
        assert(s.skip(b) =~= Seq::<char>::empty());
    } else {
        assert(!is_space(s.last()));
        lemma_suffix_token_is(s.drop_last(), b);
        assert(s.drop_last().skip(b).push(s.last()) =~= s.skip(b));
    }
}

/// Reads the last whitespace-separated token of `line` as a process id.
pub fn parse_last_token(line: &str) -> (r: Option<u32>)
    ensures
        r == line_pid(line@),
{
    let n = line.unicode_len();
    let mut e: usize = n;
    while e > 0 && char_is_space(line.get_char(e - 1))
        invariant
            n == line@.len(),
            0 <= e <= n,
            forall|k: int| e <= k < n ==> is_space(line@[k]),
        decreases e,
    {
        e -= 1;
    }
    proof {
        lemma_trim_end_is(line@, e as int);
    }
    let mut b: usize = e;
    while b > 0 && !char_is_space(line.get_char(b - 1))
        invariant
            n == line@.len(),
            0 <= b <= e <= n,
            forall|k: int| b <= k < e ==> !is_space(line@[k]),
        decreases b,
    {
        b -= 1;
    }
    proof {
        let t = line@.take(e as int);
        lemma_suffix_token_is(t, b as int);
        assert(t.skip(b as int) =~= line@.subrange(b as int, e as int));
    }
    let tok = line.substring_char(b, e);
    parse_u32(tok)
}

/// Enumeration strategy: scan the connection listing for the first line
/// containing `:port` and read its last token as the owner's id.
pub fn resolve_from_listing(output: &str, port: u16) -> (r: Option<u32>)
    ensures
        r == listing_pid(output@, port),
{
    let pat = port_pattern(port);
    let n = output.unicode_len();
    let mut i: usize = 0;
    proof {
        assert(output@.skip(0) =~= output@);
    }
    loop
        invariant
            n == output@.len(),
            0 <= i <= n,
            pat@ == port_pattern_spec(port),
            listing_scan(output@.skip(i as int), pat@) == listing_pid(output@, port),
        decreases n - i,
    {
        let mut j: usize = i;
        while j < n && output.get_char(j) != '\n'
            invariant
                n == output@.len(),
                i <= j <= n,
                forall|k: int| i <= k < j ==> output@[k] != '\n',
            decreases n - j,
        {
            j += 1;
        }
        let ghost rest = output@.skip(i as int);
        proof {
            assert forall|k: int| 0 <= k < j - i implies rest[k] != '\n' by {
                assert(rest[k] == output@[i + k]);
            }
            if j < n {
                assert(rest[j - i] == output@[j as int]);
            }
            lemma_line_len_is(rest, j - i);
        }
        let line = output.substring_char(i, j);
        proof {
            assert(line@ =~= rest.take(j - i));
        }
        if contains_str(line, pat.as_str()) {
            return parse_last_token(line);
        }
        if j == n {
            return None;
        }
        proof {
            assert(rest.skip(j - i + 1) =~= output@.skip(j + 1 as int));
        }
        i = j + 1;
    }
}

/// Descriptor-query strategy: the whole trimmed output is the owner's id.
pub fn resolve_from_query(output: &str) -> (r: Option<u32>)
    ensures
        r == query_pid(output@),
{
    let n = output.unicode_len();
    let mut e: usize = n;
    while e > 0 && char_is_space(output.get_char(e - 1))
        invariant
            n == output@.len(),
            0 <= e <= n,
            forall|k: int| e <= k < n ==> is_space(output@[k]),
        decreases e,
    {
        e -= 1;
    }
    proof {
        lemma_trim_end_is(output@, e as int);
    }
    let mut b: usize = 0;
    while b < e && char_is_space(output.get_char(b))
        invariant
            n == output@.len(),
            0 <= b <= e <= n,
            forall|k: int| 0 <= k < b ==> is_space(output@[k]),
        decreases e - b,
    {
        b += 1;
    }
    proof {
        let t = output@.take(e as int);
        lemma_trim_start_is(t, b as int);
        assert(t.skip(b as int) =~= output@.subrange(b as int, e as int));
    }
    let tok = output.substring_char(b, e);
    parse_u32(tok)
}

/// Parses raw resolver-command output into the owning process id, by
/// family. No parseable id means no owner.
pub fn parse_resolver_output(family: OsFamily, port: u16, output: &str) -> (r: Option<u32>)
    ensures
        r == resolved_pid(family, port, output@),
{
    match family {
        OsFamily::Windows => resolve_from_listing(output, port),
        OsFamily::Unix => resolve_from_query(output),
    }
}

} // verus!
