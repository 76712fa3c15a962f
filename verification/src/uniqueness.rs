//! The tracer's `--unique` option: whether repeated checks by the same process
//! or control group are reported once only.
use vstd::prelude::*;
use vstd::string::StrSliceExecFns;

verus! {

/// How the probe suppresses repeated reports, as its C enum names the modes.
#[allow(non_camel_case_types)]
#[derive(Debug, Clone, Copy, PartialEq, Eq, Structural)]
pub enum uniqueness {
    /// Report every check.
    UNQ_OFF,
    /// Report each capability once per process.
    UNQ_PID,
    /// Report each capability once per control group.
    UNQ_CGROUP,
}

/// `c` with an ASCII capital replaced by its small letter.
pub open spec fn ascii_lower(c: char) -> char {
    if 'A' <= c && c <= 'Z' {
        ((c as int) + 32) as char
    } else {
        c
    }
}

/// `s` with every ASCII capital replaced by its small letter.
pub open spec fn ascii_lowered(s: Seq<char>) -> Seq<char> {
    s.map_values(|c: char| ascii_lower(c))
}

/// `c` with an ASCII small letter replaced by its capital.
pub open spec fn ascii_upper(c: char) -> char {
    if 'a' <= c && c <= 'z' {
        ((c as int) - 32) as char
    } else {
        c
    }
}

/// `s` with every ASCII small letter replaced by its capital.
pub open spec fn ascii_uppered(s: Seq<char>) -> Seq<char> {
    s.map_values(|c: char| ascii_upper(c))
}

/// The mode that an option value names, case aside; `None` when it names none.
pub open spec fn named_mode(s: Seq<char>) -> Option<uniqueness> {
    if ascii_lowered(s) == "off"@ {
        Some(uniqueness::UNQ_OFF)
    } else if ascii_lowered(s) == "pid"@ {
        Some(uniqueness::UNQ_PID)
    } else if ascii_lowered(s) == "cgroup"@ {
        Some(uniqueness::UNQ_CGROUP)
    } else {
        None
    }
}

/// The message given for a value that names no mode.
pub open spec fn unknown_mode_message() -> Seq<char> {
    "Use 1 for pid (default), 2 for cgroups"@
}

/// `c` equals the lower-case letter `w` once an ASCII capital is lowered.
fn lowers_to(c: char, w: char) -> (b: bool)
    ensures
        b == (ascii_lower(c) == w),
{
    if c == w {
        !('A' <= c && c <= 'Z')
    } else if 'A' <= c && c <= 'Z' {
        let lc: u32 = (c as u32) + 32;
        let wc: u32 = w as u32;
        proof {
            assert(ascii_lower(c) as int == c as int + 32);
        }
        lc == wc
    } else {
        false
    }
}

/// `s`, case aside, is `word`.
fn names_word(s: &str, word: &str) -> (b: bool)
    ensures
        b == (ascii_lowered(s@) == word@),
{
    let n: usize = s.unicode_len();
    let m: usize = word.unicode_len();
    if n != m {
        assert(ascii_lowered(s@).len() != word@.len());
        return false;
    }
    let mut i: usize = 0;
    while i < n
        invariant
            i <= n,
            n == s@.len(),
            n == word@.len(),
            forall|j: int| 0 <= j < i ==> ascii_lower(#[trigger] s@[j]) == word@[j],
        decreases n - i,
    {
        let c = s.get_char(i);
        let w = word.get_char(i);
        if !lowers_to(c, w) {
            assert(ascii_lowered(s@)[i as int] != word@[i as int]);
            return false;
        }
        i = i + 1;
    }
    assert(ascii_lowered(s@) =~= word@);
    true
}

/// Law: the option's value is read without regard to ASCII case: a value
/// names the same mode as its lower-case spelling and as its upper-case
/// spelling.
pub proof fn law_mode_ignores_case(s: Seq<char>)
    ensures
        named_mode(ascii_lowered(s)) == named_mode(s),
        named_mode(ascii_uppered(s)) == named_mode(s),
{
    assert(ascii_lowered(ascii_lowered(s)) =~= ascii_lowered(s));
    assert forall|i: int| 0 <= i < s.len() implies ascii_lower(ascii_upper(s[i])) == ascii_lower(
        s[i],
    ) by {
        let c = s[i];
        if 'a' <= c && c <= 'z' {
            assert(ascii_upper(c) as int == c as int - 32);
        }
    }
    assert(ascii_lowered(ascii_uppered(s)) =~= ascii_lowered(s));
}

/// The mode an option value names, case aside: `off`, `pid` or `cgroup`.
impl std::str::FromStr for uniqueness {
    type Err = &'static str;

    fn from_str(unq_type: &str) -> (r: Result<Self, Self::Err>)
        ensures
            named_mode(unq_type@) matches Some(m) ==> r == Ok::<uniqueness, &'static str>(m),
            named_mode(unq_type@) is None ==> (r matches Err(msg) && msg@ == unknown_mode_message()),
    {
        if names_word(unq_type, "off") {
            Ok(uniqueness::UNQ_OFF)
        } else if names_word(unq_type, "pid") {
            Ok(uniqueness::UNQ_PID)
        } else if names_word(unq_type, "cgroup") {
            Ok(uniqueness::UNQ_CGROUP)
        } else {
            Err("Use 1 for pid (default), 2 for cgroups")
        }
    }
}

} // verus!
