//! Text shaping for the primary display: the navigation path label, modal
//! message line breaking, and the small index / volume labels.

use vstd::prelude::*;

use crate::utils::{format_u64, spec_decimal};

verus! {

/// Relies on `String::push`: appends exactly the one given character.
#[verifier::external_body]
pub fn push_char(s: &mut String, c: char)
    ensures
        final(s)@ == old(s)@.push(c),
{
    s.push(c);
}

/// Compares two string slices character by character.
pub fn str_eq(a: &str, b: &str) -> (r: bool)
    ensures
        r == (a@ == b@),
{
    let alen = a.unicode_len();
    let blen = b.unicode_len();
    if alen != blen {
        return false;
    }
    let mut i: usize = 0;
    while i < alen
        invariant
            i <= alen,
            alen == a@.len(),
            alen == b@.len(),
            forall|j: int| 0 <= j < i ==> a@[j] == b@[j],
        decreases alen - i,
    {
        if a.get_char(i) != b.get_char(i) {
            return false;
        }
        i += 1;
    }
    proof {
        assert(a@ =~= b@);
    }
    true
}

/// The slash-joined rendering of a directory path's components, with every
/// component equal to `home` omitted (the browse root's owner is hidden from
/// the displayed path).
pub open spec fn spec_joined(dir: Seq<Seq<char>>, home: Seq<char>) -> Seq<char>
    decreases dir.len(),
{
    if dir.len() == 0 {
        Seq::empty()
    } else {
        spec_joined(dir.drop_last(), home) + (if dir.last() == home {
            Seq::<char>::empty()
        } else {
            seq!['/'] + dir.last()
        })
    }
}

/// The path label before truncation: "/" for the filesystem root, otherwise
/// the joined components.
pub open spec fn spec_dir_label_full(dir: Seq<Seq<char>>, home: Seq<char>) -> Seq<char> {
    if dir.len() == 0 {
        "/"@
    } else {
        spec_joined(dir, home)
    }
}

/// The displayed path label: truncated to its first forty characters plus a
/// trailing ellipsis once it grows longer than forty characters.
pub open spec fn spec_dir_label(dir: Seq<Seq<char>>, home: Seq<char>) -> Seq<char> {
    let full = spec_dir_label_full(dir, home);
    if full.len() > 40 {
        full.take(40) + "..."@
    } else {
        full
    }
}

/// Renders the navigation bar's path label for the directory whose
/// components below the filesystem root are `dir`.
pub fn format_dir(dir: &Vec<String>, home: &String) -> (s: String)
    ensures
        s@ == spec_dir_label(dir.deep_view(), home@),
{
    let mut full = String::new();
    let ghost gdir = dir.deep_view();
    let mut i: usize = 0;
    while i < dir.len()
        invariant
            i <= dir.len(),
            gdir == dir.deep_view(),
            gdir.len() == dir.len(),
            full@ == spec_joined(gdir.take(i as int), home@),
        decreases dir.len() - i,
    {
        proof {
            assert(gdir[i as int] == dir@[i as int].deep_view());
            assert(gdir.take(i + 1).drop_last() =~= gdir.take(i as int));
            assert(gdir.take(i + 1).last() == gdir[i as int]);
        }
        let comp = &dir[i];
        if !comp.eq(home) {
            push_char(&mut full, '/');
            full.append(comp.as_str());
            proof {
                assert(full@ =~= spec_joined(gdir.take(i + 1), home@));
            }
        } else {
            proof {
                assert(full@ =~= spec_joined(gdir.take(i + 1), home@));
            }
        }
        i += 1;
    }
    proof {
        assert(gdir.take(gdir.len() as int) =~= gdir);
    }
    let label = if dir.len() == 0 {
        String::from_str("/")
    } else {
        full
    };
    let n = label.as_str().unicode_len();
    if n > 40 {
        let head = label.as_str().substring_char(0, 40);
        let mut out = head.to_owned();
        out.append("...");
        proof {
            assert(out@ =~= spec_dir_label(gdir, home@));
        }
        out
    } else {
        label
    }
}

/// The modal message with a line break inserted after every thirtieth
/// character, except when the thirtieth is also the message's last.
pub open spec fn spec_broken_upto(s: Seq<char>, n: int) -> Seq<char>
    decreases n,
{
    if n <= 0 {
        Seq::empty()
    } else {
        spec_broken_upto(s, n - 1) + seq![s[n - 1]] + (if n % 30 == 0 && n != s.len() {
            seq!['\n']
        } else {
            Seq::<char>::empty()
        })
    }
}

/// The full line-broken form of a modal message.
pub open spec fn spec_broken(s: Seq<char>) -> Seq<char> {
    spec_broken_upto(s, s.len() as int)
}

/// Breaks a modal message into display lines of at most thirty characters.
pub fn break_message(msg: &str) -> (out: String)
    ensures
        out@ == spec_broken(msg@),
{
    let len = msg.unicode_len();
    let mut out = String::new();
    let mut i: usize = 0;
    while i < len
        invariant
            i <= len,
            len == msg@.len(),
            out@ == spec_broken_upto(msg@, i as int),
        decreases len - i,
    {
        let c = msg.get_char(i);
        push_char(&mut out, c);
        if (i + 1) % 30 == 0 && i + 1 != len {
            push_char(&mut out, '\n');
        }
        proof {
            assert(out@ =~= spec_broken_upto(msg@, i + 1));
        }
        i += 1;
    }
    out
}

/// The "position/count" label shown in the navigation bar.
pub open spec fn spec_index_label(num: nat, count: nat) -> Seq<char> {
    spec_decimal(num) + "/"@ + spec_decimal(count)
}

/// Renders the navigation bar's "position/count" label.
pub fn format_index_label(num: u64, count: u64) -> (s: String)
    ensures
        s@ == spec_index_label(num as nat, count as nat),
{
    let mut s = format_u64(num);
    s.append("/");
    let part = format_u64(count);
    s.append(part.as_str());
    proof {
        assert(s@ =~= spec_index_label(num as nat, count as nat));
    }
    s
}

/// The label a freshly listed directory shows: entry one of `count`, or
/// zero of zero when the directory is empty.
pub open spec fn spec_initial_index_label(count: nat) -> Seq<char> {
    if count == 0 {
        spec_index_label(0, 0)
    } else {
        spec_index_label(1, count)
    }
}

/// Renders the index label for a directory that was just listed, before any
/// scrolling.
pub fn initial_index_label(count: u64) -> (s: String)
    ensures
        s@ == spec_initial_index_label(count as nat),
{
    if count == 0 {
        format_index_label(0, 0)
    } else {
        format_index_label(1, count)
    }
}

/// The "volume%" label shown on the second status display.
pub open spec fn spec_percent_label(v: nat) -> Seq<char> {
    spec_decimal(v) + "%"@
}

/// Renders the volume percentage label.
pub fn format_percent(v: u64) -> (s: String)
    ensures
        s@ == spec_percent_label(v as nat),
{
    let mut s = format_u64(v);
    s.append("%");
    proof {
        assert(s@ =~= spec_percent_label(v as nat));
    }
    s
}

} // verus!
