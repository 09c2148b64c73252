//! The `systemd --user` service unit that runs the reminder in the background
//! and starts it on login. Writing it and calling `systemctl` is the
//! program's job.

use vstd::prelude::*;

use crate::text::push_char;

verus! {

/// The unit's file name.
pub const UNIT_NAME: &'static str = "standing-desk-reminder.service";

/// The program path the unit template starts, replaced by the actual one.
pub const EXEC_PLACEHOLDER: &'static str = "%h/.cargo/bin/standing-desk-reminder";

/// The unit file as shipped, starting the program from `~/.cargo/bin`.
pub const UNIT_TEMPLATE: &'static str = "[Unit]
Description=Standing desk reminder (alternate sitting and standing)
PartOf=graphical-session.target
After=graphical-session.target

[Service]
Type=simple
ExecStart=%h/.cargo/bin/standing-desk-reminder
Restart=on-failure
RestartSec=10

[Install]
WantedBy=graphical-session.target
";

/// `s` with every occurrence of the (non-empty) pattern `pat` replaced by
/// `rep`, scanning from the left and never overlapping, as `str::replace`
/// does.
pub open spec fn replace_all(s: Seq<char>, pat: Seq<char>, rep: Seq<char>) -> Seq<char>
    decreases s.len(),
{
    if pat.len() == 0 || s.len() < pat.len() {
        s
    } else if s.subrange(0, pat.len() as int) == pat {
        rep + replace_all(s.subrange(pat.len() as int, s.len() as int), pat, rep)
    } else {
        seq![s[0]] + replace_all(s.subrange(1, s.len() as int), pat, rep)
    }
}

/// Whether `pat` occurs in `s` starting at character `i`.
fn occurs_at(s: &str, n: usize, i: usize, pat: &str, p: usize) -> (r: bool)
    requires
        n == s@.len(),
        p == pat@.len(),
        i <= n,
    ensures
        r == (i + p <= n && s@.subrange(i as int, i + p) == pat@),
{
    if p > n - i {
        return false;
    }
    let mut k: usize = 0;
    while k < p
        invariant
            n == s@.len(),
            p == pat@.len(),
            i + p <= n,
            k <= p,
            forall|j: int| 0 <= j < k ==> s@[i + j] == pat@[j],
        decreases p - k,
    {
        if s.get_char(i + k) != pat.get_char(k) {
            assert(s@.subrange(i as int, i + p)[k as int] != pat@[k as int]);
            return false;
        }
        k = k + 1;
    }
    assert(s@.subrange(i as int, i + p) =~= pat@);
    true
}

/// `s` with every occurrence of `pat` replaced by `rep`.
fn replace(s: &str, pat: &str, rep: &str) -> (r: String)
    requires
        pat@.len() > 0,
    ensures
        r@ == replace_all(s@, pat@, rep@),
{
    let n = s.unicode_len();
    let p = pat.unicode_len();
    let mut out = String::new();
    let mut i: usize = 0;
    assert(s@.subrange(0, n as int) =~= s@);
    while i < n
        invariant
            n == s@.len(),
            p == pat@.len(),
            p > 0,
            i <= n,
            out@ + replace_all(s@.subrange(i as int, n as int), pat@, rep@) == replace_all(
                s@,
                pat@,
                rep@,
            ),
        decreases n - i,
    {
        let ghost rest = s@.subrange(i as int, n as int);
        if occurs_at(s, n, i, pat, p) {
            assert(rest.subrange(0, p as int) =~= pat@);
            assert(rest.subrange(p as int, rest.len() as int) =~= s@.subrange(i + p, n as int));
            out.append(rep);
            i = i + p;
        } else {
            proof {
                if rest.len() >= p {
                    assert(rest.subrange(0, p as int) =~= s@.subrange(i as int, i + p));
                }
            }
            assert(rest.subrange(1, rest.len() as int) =~= s@.subrange(i + 1, n as int));
            assert(rest =~= seq![rest[0]] + rest.subrange(1, rest.len() as int));
            push_char(&mut out, s.get_char(i));
            assert(out@ + replace_all(s@.subrange(i + 1, n as int), pat@, rep@) =~= replace_all(
                s@,
                pat@,
                rep@,
            ));
            i = i + 1;
        }
    }
    assert(out@ =~= out@ + replace_all(s@.subrange(n as int, n as int), pat@, rep@));
    out
}

/// The unit file for the program installed at `exe`: the shipped template
/// with its placeholder program path replaced by `exe`.
pub fn unit_contents(exe: &str) -> (r: String)
    ensures
        r@ == replace_all(UNIT_TEMPLATE@, EXEC_PLACEHOLDER@, exe@),
{
    proof {
        reveal_strlit("%h/.cargo/bin/standing-desk-reminder");
    }
    replace(UNIT_TEMPLATE, EXEC_PLACEHOLDER, exe)
}

} // verus!
