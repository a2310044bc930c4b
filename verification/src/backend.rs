//! Which desktop's settings the daemon follows, chosen from the value of
//! `XDG_CURRENT_DESKTOP`.
use vstd::prelude::*;

verus! {

/// The settings backend: GNOME's gsettings or COSMIC's cosmic-config.
#[derive(Debug, Clone, Copy, PartialEq, Eq)]
pub enum BackendKind {
    Gnome,
    Cosmic,
}

/// The code of `c` with ASCII upper case letters mapped to lower case.
pub open spec fn ascii_lower_code(c: char) -> u32 {
    let n = c as u32;
    if 65 <= n <= 90 {
        (n + 32) as u32
    } else {
        n
    }
}

/// Equal up to the case of ASCII letters.
pub open spec fn eq_ignore_ascii_case(a: Seq<char>, b: Seq<char>) -> bool {
    &&& a.len() == b.len()
    &&& forall|k: int| 0 <= k < a.len() ==> ascii_lower_code(#[trigger] a[k]) == ascii_lower_code(b[k])
}

/// `s[i..j]` is one of the `:`-separated entries of `s` (entries may be
/// empty).
pub open spec fn is_entry(s: Seq<char>, i: int, j: int) -> bool {
    &&& 0 <= i <= j <= s.len()
    &&& i == 0 || s[i - 1] == ':'
    &&& j == s.len() || s[j] == ':'
    &&& forall|k: int| i <= k < j ==> s[k] != ':'
}

/// Whether one entry of the desktop list is "cosmic", in any case.
pub open spec fn names_cosmic(desktop: Seq<char>) -> bool {
    exists|i: int, j: int|
        is_entry(desktop, i, j) && #[trigger] eq_ignore_ascii_case(
            desktop.subrange(i, j),
            "cosmic"@,
        )
}

/// The backend for a desktop list.
pub open spec fn backend_for(desktop: Seq<char>) -> BackendKind {
    if names_cosmic(desktop) {
        BackendKind::Cosmic
    } else {
        BackendKind::Gnome
    }
}

fn same_ignoring_ascii_case(a: char, b: char) -> (r: bool)
    ensures
        r == (ascii_lower_code(a) == ascii_lower_code(b)),
{
    let x: u32 = a as u32;
    let y: u32 = b as u32;
    let lx: u32 = if 65 <= x && x <= 90 {
        x + 32
    } else {
        x
    };
    let ly: u32 = if 65 <= y && y <= 90 {
        y + 32
    } else {
        y
    };
    lx == ly
}

/// Whether `desktop[start..end]` is "cosmic" in any case.
fn entry_is_cosmic(desktop: &str, start: usize, end: usize) -> (r: bool)
    requires
        start <= end <= desktop@.len(),
    ensures
        r == eq_ignore_ascii_case(desktop@.subrange(start as int, end as int), "cosmic"@),
{
    let target = "cosmic";
    proof {
        reveal_strlit("cosmic");
    }
    if end - start != 6 {
        return false;
    }
    let mut k: usize = 0;
    while k < 6
        invariant
            end - start == 6,
            start <= end <= desktop@.len(),
            target@ == "cosmic"@,
            target@.len() == 6,
            0 <= k <= 6,
            forall|m: int|
                0 <= m < k ==> ascii_lower_code(desktop@[start + m]) == ascii_lower_code(
                    target@[m],
                ),
        decreases 6 - k,
    {
        if !same_ignoring_ascii_case(desktop.get_char(start + k), target.get_char(k)) {
            assert(ascii_lower_code(desktop@.subrange(start as int, end as int)[k as int])
                != ascii_lower_code(target@[k as int]));
            return false;
        }
        k = k + 1;
    }
    assert(eq_ignore_ascii_case(desktop@.subrange(start as int, end as int), "cosmic"@));
    true
}

/// An entry is fixed by where it ends.
proof fn lemma_entry_start(s: Seq<char>, i: int, j: int, start: int)
    requires
        is_entry(s, i, j),
        0 <= start <= j,
        start == 0 || s[start - 1] == ':',
        forall|k: int| start <= k < j ==> s[k] != ':',
    ensures
        i == start,
{
    if i < start {
        assert(s[start - 1] != ':');
    } else if i > start {
        assert(s[i - 1] != ':');
    }
}

impl BackendKind {
    /// The backend for a value of `XDG_CURRENT_DESKTOP`: COSMIC when one of
    /// its `:`-separated entries is "cosmic" in any case, GNOME otherwise.
    pub fn from_desktop_value(desktop: &str) -> (r: Self)
        ensures
            r == backend_for(desktop@),
    {
        let n = desktop.unicode_len();
        let mut start: usize = 0;
        let mut pos: usize = 0;
        while pos < n
            invariant
                n == desktop@.len(),
                start <= pos <= n,
                start == 0 || desktop@[start - 1] == ':',
                forall|k: int| start <= k < pos ==> desktop@[k] != ':',
                forall|i: int, j: int|
                    #![trigger is_entry(desktop@, i, j)]
                    is_entry(desktop@, i, j) && j < pos ==> !eq_ignore_ascii_case(
                        desktop@.subrange(i, j),
                        "cosmic"@,
                    ),
            decreases n - pos,
        {
            if desktop.get_char(pos) == ':' {
                let found = entry_is_cosmic(desktop, start, pos);
                assert(is_entry(desktop@, start as int, pos as int));
                if found {
                    return BackendKind::Cosmic;
                }
                assert forall|i: int, j: int|
                    #![trigger is_entry(desktop@, i, j)]
                    is_entry(desktop@, i, j) && j < pos + 1 implies !eq_ignore_ascii_case(
                        desktop@.subrange(i, j),
                        "cosmic"@,
                    ) by {
                    if j == pos {
                        lemma_entry_start(desktop@, i, j, start as int);
                    }
                }
                start = pos + 1;
            }
            pos = pos + 1;
        }
        let found = entry_is_cosmic(desktop, start, n);
        assert(is_entry(desktop@, start as int, n as int));
        if found {
            return BackendKind::Cosmic;
        }
        assert forall|i: int, j: int|
            is_entry(desktop@, i, j) implies !#[trigger] eq_ignore_ascii_case(
                desktop@.subrange(i, j),
                "cosmic"@,
            ) by {
            if j == n {
                lemma_entry_start(desktop@, i, j, start as int);
            } else {
                assert(is_entry(desktop@, i, j) && j < pos);
            }
        }
        BackendKind::Gnome
    }

    /// The backend for `XDG_CURRENT_DESKTOP` when it may be unset: GNOME
    /// when it is unset, as [`BackendKind::from_desktop_value`] otherwise.
    pub fn from_desktop_setting(desktop: Option<&str>) -> (r: Self)
        ensures
            r == match desktop {
                Some(d) => backend_for(d@),
                None => BackendKind::Gnome,
            },
    {
        match desktop {
            Some(d) => Self::from_desktop_value(d),
            None => BackendKind::Gnome,
        }
    }
}

/// The backend chosen for a desktop list does not depend on the case of
/// ASCII letters in it.
pub proof fn lemma_backend_ignores_ascii_case(a: Seq<char>, b: Seq<char>)
    requires
        eq_ignore_ascii_case(a, b),
    ensures
        backend_for(a) == backend_for(b),
{
    lemma_names_cosmic_transfer(a, b);
    lemma_names_cosmic_transfer(b, a);
}

proof fn lemma_names_cosmic_transfer(a: Seq<char>, b: Seq<char>)
    requires
        eq_ignore_ascii_case(a, b),
    ensures
        names_cosmic(a) ==> names_cosmic(b),
{
    assert forall|k: int| 0 <= k < a.len() implies (a[k] == ':') == (b[k] == ':') by {
        assert(ascii_lower_code(a[k]) == ascii_lower_code(b[k]));
        vstd::utf8::char_u32_cast(':', 58);
        vstd::utf8::char_u32_cast(a[k], a[k] as u32);
        vstd::utf8::char_u32_cast(b[k], b[k] as u32);
    }
    if names_cosmic(a) {
        let (i, j) = choose|i: int, j: int|
            is_entry(a, i, j) && #[trigger] eq_ignore_ascii_case(a.subrange(i, j), "cosmic"@);
        assert(is_entry(b, i, j));
        assert forall|k: int| 0 <= k < b.subrange(i, j).len() implies ascii_lower_code(
            #[trigger] b.subrange(i, j)[k],
        ) == ascii_lower_code("cosmic"@[k]) by {
            assert(ascii_lower_code(a[i + k]) == ascii_lower_code(b[i + k]));
            assert(a.subrange(i, j)[k] == a[i + k]);
        }
        assert(eq_ignore_ascii_case(b.subrange(i, j), "cosmic"@));
    }
}

} // verus!
