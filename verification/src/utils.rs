//! Decisions behind the host helpers: where a fetched resource lands, and
//! whether a requested software version warrants an upgrade.

use vstd::prelude::*;
use vstd::string::StrSliceExecFns;
use crate::text::dec_str;
use crate::text::u64_to_dec_string;

verus! {

/// The suffix of `u` after its last '/', or all of `u` when it has none.
pub open spec fn last_segment(u: Seq<char>) -> Seq<char>
    decreases u.len(),
{
    if u.len() == 0 {
        u
    } else if u.last() == '/' {
        Seq::empty()
    } else {
        last_segment(u.drop_last()).push(u.last())
    }
}

/// A suffix free of '/' and starting right after one (or at the front) is
/// the last segment.
proof fn lemma_last_segment_from(u: Seq<char>, i: int)
    requires
        0 <= i <= u.len(),
        forall|j: int| i <= j < u.len() ==> u[j] != '/',
        i > 0 ==> u[i - 1] == '/',
    ensures
        last_segment(u) == u.subrange(i, u.len() as int),
    decreases u.len(),
{
    if u.len() == 0 {
        assert(last_segment(u) =~= u.subrange(0, 0));
    } else if i == u.len() {
        assert(u.last() == '/');
        assert(last_segment(u) =~= u.subrange(i, u.len() as int));
    } else {
        assert(u.last() == u[u.len() - 1] && u[u.len() - 1] != '/');
        lemma_last_segment_from(u.drop_last(), i);
        assert(last_segment(u) == last_segment(u.drop_last()).push(u.last()));
        assert(last_segment(u) =~= u.subrange(i, u.len() as int));
    }
}

/// The file name a fetched resource is stored under: the given target when
/// there is one, else the last path segment of the URL.
pub fn resource_target(url: &str, dst: Option<String>) -> (t: String)
    ensures
        match dst {
            Option::Some(d) => t@ == d@,
            Option::None => t@ == last_segment(url@),
        },
{
    match dst {
        Some(d) => d,
        None => {
            let n = url.unicode_len();
            let mut i: usize = n;
            let mut stop: bool = false;
            while i > 0 && !stop
                invariant
                    0 <= i <= n,
                    n == url@.len(),
                    forall|j: int| i <= j < n ==> url@[j] != '/',
                    stop ==> i > 0 && url@[i - 1] == '/',
                decreases i + (if stop {
                    0int
                } else {
                    1int
                }),
            {
                if url.get_char(i - 1) == '/' {
                    stop = true;
                } else {
                    i -= 1;
                }
            }
            proof {
                lemma_last_segment_from(url@, i as int);
            }
            let seg = url.substring_char(i, n);
            seg.to_owned()
        },
    }
}

/// Whether a character is a decimal digit.
pub open spec fn is_digit(c: char) -> bool {
    48 <= c as int <= 57
}

/// The numeric value of a digit character.
pub open spec fn digit_val(c: char) -> int {
    c as int - 48
}

/// The number a digit string stands for, most significant digit first.
pub open spec fn dec_value(u: Seq<char>) -> int
    decreases u.len(),
{
    if u.len() == 0 {
        0
    } else {
        dec_value(u.drop_last()) * 10 + digit_val(u.last())
    }
}

/// Whether every character of the string is a decimal digit.
pub open spec fn all_digits(u: Seq<char>) -> bool {
    forall|i: int| 0 <= i < u.len() ==> is_digit(#[trigger] u[i])
}

/// The prefix of a version string up to its first '.', or all of it.
pub open spec fn before_dot(u: Seq<char>) -> Seq<char>
    decreases u.len(),
{
    if u.len() == 0 {
        u
    } else if u[0] == '.' {
        Seq::empty()
    } else {
        seq![u[0]] + before_dot(u.drop_first())
    }
}

/// A prefix free of '.' and ended by one (or by the end of the string) is
/// the before-dot prefix.
proof fn lemma_before_dot_to(u: Seq<char>, p: int)
    requires
        0 <= p <= u.len(),
        forall|j: int| 0 <= j < p ==> u[j] != '.',
        p < u.len() ==> u[p] == '.',
    ensures
        before_dot(u) == u.subrange(0, p),
    decreases u.len(),
{
    if u.len() == 0 {
        assert(before_dot(u) =~= u.subrange(0, 0));
    } else if p == 0 {
        assert(before_dot(u) =~= u.subrange(0, 0));
    } else {
        assert(u[0] != '.');
        let ud = u.drop_first();
        assert(forall|j: int| 0 <= j < p - 1 ==> ud[j] == u[j + 1] && ud[j] != '.');
        lemma_before_dot_to(ud, p - 1);
        assert(before_dot(u) == seq![u[0]] + before_dot(ud));
        assert(before_dot(u) =~= u.subrange(0, p));
    }
}

/// The string with every 'v' removed.
pub open spec fn strip_v(u: Seq<char>) -> Seq<char>
    decreases u.len(),
{
    if u.len() == 0 {
        u
    } else {
        let r = strip_v(u.drop_last());
        if u.last() == 'v' {
            r
        } else {
            r.push(u.last())
        }
    }
}

/// What parsing a digit string as a 32-bit number yields: its value when the
/// string is non-empty, all digits, and small enough.
pub open spec fn spec_parse_u32(u: Seq<char>) -> Option<u32> {
    if u.len() > 0 && all_digits(u) && dec_value(u) < 0x1_0000_0000 {
        Some(dec_value(u) as u32)
    } else {
        None
    }
}

/// The major number of a version string: everything before the first '.',
/// with any 'v' removed, read as a decimal number.
pub open spec fn spec_major(version: Seq<char>) -> Option<u32> {
    spec_parse_u32(strip_v(before_dot(version)))
}

/// Nonnegativity of a digit string's value.
proof fn lemma_dec_value_nonneg(u: Seq<char>)
    requires
        all_digits(u),
    ensures
        dec_value(u) >= 0,
    decreases u.len(),
{
    if u.len() > 0 {
        assert(forall|i: int| 0 <= i < u.len() - 1 ==> u.drop_last()[i] == u[i]);
        lemma_dec_value_nonneg(u.drop_last());
    }
}

/// The numeric value of a digit character, if it is one.
fn char_digit(c: char) -> (r: Option<u64>)
    ensures
        match r {
            Option::Some(d) => is_digit(c) && d == digit_val(c) && d <= 9,
            Option::None => !is_digit(c),
        },
{
    if c == '0' {
        Some(0)
    } else if c == '1' {
        Some(1)
    } else if c == '2' {
        Some(2)
    } else if c == '3' {
        Some(3)
    } else if c == '4' {
        Some(4)
    } else if c == '5' {
        Some(5)
    } else if c == '6' {
        Some(6)
    } else if c == '7' {
        Some(7)
    } else if c == '8' {
        Some(8)
    } else if c == '9' {
        Some(9)
    } else {
        None
    }
}

/// Reads the major number out of a version string such as "v1.0.0".
pub fn parse_major(version: &str) -> (r: Option<u32>)
    ensures
        r == spec_major(version@),
{
    let n = version.unicode_len();
    // find the first '.'
    let mut p: usize = 0;
    let mut dotted: bool = false;
    while p < n && !dotted
        invariant
            0 <= p <= n,
            n == version@.len(),
            forall|j: int| 0 <= j < p ==> version@[j] != '.',
            dotted ==> p < n && version@[p as int] == '.',
        decreases n - p + (if dotted {
            0int
        } else {
            1int
        }),
    {
        if version.get_char(p) == '.' {
            dotted = true;
        } else {
            p += 1;
        }
    }
    proof {
        lemma_before_dot_to(version@, p as int);
    }
    let ghost pre = version@.subrange(0, p as int);
    // walk the prefix, skipping 'v', accumulating the decimal value
    let mut j: usize = 0;
    let mut acc: u64 = 0;
    let mut any: bool = false;
    let mut bad: bool = false;
    let mut over: bool = false;
    proof {
        assert(strip_v(pre.subrange(0, 0)) =~= Seq::<char>::empty());
    }
    while j < p
        invariant
            0 <= j <= p <= n,
            n == version@.len(),
            pre == version@.subrange(0, p as int),
            ({
                let sp = strip_v(pre.subrange(0, j as int));
                &&& any == (sp.len() > 0)
                &&& (bad ==> !all_digits(sp))
                &&& (!bad ==> all_digits(sp))
                &&& (!bad && !over ==> acc == dec_value(sp) && acc <= 0xFFFF_FFFF)
                &&& (!bad && over ==> dec_value(sp) > 0xFFFF_FFFF)
            }),
        decreases p - j,
    {
        let ghost sp_pre = strip_v(pre.subrange(0, j as int));
        let ghost sp_post = strip_v(pre.subrange(0, j as int + 1));
        proof {
            assert(pre.subrange(0, j as int + 1).drop_last() =~= pre.subrange(0, j as int));
            assert(pre.subrange(0, j as int + 1).last() == version@[j as int]);
        }
        let c = version.get_char(j);
        if c == 'v' {
            proof {
                assert(sp_post == sp_pre);
            }
        } else {
            proof {
                assert(sp_post == sp_pre.push(c));
                assert(sp_post.drop_last() =~= sp_pre);
                assert(sp_post.last() == c);
                assert(dec_value(sp_post) == dec_value(sp_pre) * 10 + digit_val(c));
            }
            match char_digit(c) {
                Some(d) => {
                    proof {
                        if !bad {
                            assert forall|i: int| 0 <= i < sp_post.len() implies is_digit(
                                #[trigger] sp_post[i],
                            ) by {
                                if i < sp_post.len() - 1 {
                                    assert(sp_post[i] == sp_pre[i]);
                                }
                            }
                        } else {
                            let w = choose|i: int|
                                0 <= i < sp_pre.len() && !is_digit(#[trigger] sp_pre[i]);
                            assert(sp_post[w] == sp_pre[w]);
                            assert(!all_digits(sp_post));
                        }
                    }
                    if !bad && !over {
                        if acc > 429496729 || (acc == 429496729 && d > 5) {
                            over = true;
                        } else {
                            acc = acc * 10 + d;
                        }
                    } else if !bad && over {
                        proof {
                            lemma_dec_value_nonneg(sp_pre);
                        }
                    }
                },
                None => {
                    proof {
                        assert(sp_post.last() == c && !is_digit(c));
                        assert(!all_digits(sp_post));
                    }
                    bad = true;
                },
            }
            any = true;
        }
        j += 1;
    }
    proof {
        assert(pre.subrange(0, p as int) =~= pre);
        assert(strip_v(before_dot(version@)) == strip_v(pre));
    }
    if bad || over || !any {
        return None;
    }
    Some(acc as u32)
}

/// What a software-upgrade request must lead to.
pub enum UpgradeDecision {
    /// The required major version is newer: write its decimal rendering to
    /// the upgrade file, then exit with the upgrade code.
    Upgrade { major: u32, file_contents: String },
    /// The required major version is not greater than the running one: the
    /// request is rejected and the process carries on.
    NotNewer,
    /// One of the version strings has no readable major number.
    Malformed,
}

/// Decides a software-upgrade request by comparing major versions.
pub fn update_client(current_version: &str, required_version: &str) -> (d: UpgradeDecision)
    ensures
        match (spec_major(current_version@), spec_major(required_version@)) {
            (Option::Some(c), Option::Some(rq)) => {
                if c < rq {
                    (d matches UpgradeDecision::Upgrade { major, file_contents } && major == rq
                        && file_contents@ == dec_str(rq as nat))
                } else {
                    d is NotNewer
                }
            },
            _ => d is Malformed,
        },
{
    let cur = parse_major(current_version);
    let req = parse_major(required_version);
    match (cur, req) {
        (Some(c), Some(rq)) => {
            if c < rq {
                let contents = u64_to_dec_string(rq as u64);
                UpgradeDecision::Upgrade { major: rq, file_contents: contents }
            } else {
                UpgradeDecision::NotNewer
            }
        },
        _ => UpgradeDecision::Malformed,
    }
}

} // verus!
