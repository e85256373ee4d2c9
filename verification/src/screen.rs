//! The terminal screens' data model: the screen and input-mode
//! enumerations, popup placement arithmetic, and the parsing of an
//! installed tree's folder name back into a display name.

use vstd::prelude::*;
use vstd::string::*;
use crate::text::is_digit_char;
use crate::text::spec_split;
use crate::text::split_char;
use crate::text::str_eq;
use crate::text::upper_char;

verus! {

/// Which screen the terminal interface is on.
#[derive(Debug, Clone)]
pub enum CurrentScreen {
    Dashboard,
    DistroFamilySelect,
    DistroVersionSelect,
    UserCredentials,
    Installing,
    Finished,
    LaunchSelect,
}

/// Which credential field is being typed.
#[derive(PartialEq, Eq, Structural)]
pub enum InputMode {
    Username,
    Password,
}

/// A rectangle of terminal cells.
#[derive(PartialEq, Eq, Structural, Clone, Copy, Debug)]
pub struct Rect {
    pub x: u16,
    pub y: u16,
    pub width: u16,
    pub height: u16,
}

/// The padding that centers `inner` cells inside `outer`.
pub open spec fn spec_center_offset(outer: int, inner: int) -> int {
    if outer > inner {
        (outer - inner) / 2
    } else {
        0
    }
}

/// A rectangle of the given size centered in `r`, clamped to `r`'s
/// size and to the coordinate range.
pub fn centered_rect_with_size(width: u16, height: u16, r: Rect) -> (c: Rect)
    ensures
        c.width as int == if width <= r.width {
            width as int
        } else {
            r.width as int
        },
        c.height as int == if height <= r.height {
            height as int
        } else {
            r.height as int
        },
        c.x as int == if r.x as int + spec_center_offset(r.width as int, width as int) > 65535 {
            65535int
        } else {
            r.x as int + spec_center_offset(r.width as int, width as int)
        },
        c.y as int == if r.y as int + spec_center_offset(r.height as int, height as int) > 65535 {
            65535int
        } else {
            r.y as int + spec_center_offset(r.height as int, height as int)
        },
{
    let wpad: u16 = if r.width > width {
        (r.width - width) / 2
    } else {
        0
    };
    let hpad: u16 = if r.height > height {
        (r.height - height) / 2
    } else {
        0
    };
    let xs: u32 = r.x as u32 + wpad as u32;
    let ys: u32 = r.y as u32 + hpad as u32;
    Rect {
        x: if xs > 65535 {
            65535
        } else {
            xs as u16
        },
        y: if ys > 65535 {
            65535
        } else {
            ys as u16
        },
        width: if width <= r.width {
            width
        } else {
            r.width
        },
        height: if height <= r.height {
            height
        } else {
            r.height
        },
    }
}

/// The largest element of a width list; 0 when empty.
pub open spec fn spec_max_width(ws: Seq<usize>) -> int
    decreases ws.len(),
{
    if ws.len() == 0 {
        0
    } else {
        let m = spec_max_width(ws.drop_last());
        if ws.last() as int > m {
            ws.last() as int
        } else {
            m
        }
    }
}

/// The popup width for a list: the widest of the items, the title and
/// the instruction, at least 20, plus 4 cells of border and margin;
/// clamped to the cell range.
pub open spec fn spec_popup_width(ws: Seq<usize>, title_len: int, instruction_len: int) -> int {
    let m0 = spec_max_width(ws);
    let m1 = if title_len > m0 {
        title_len
    } else {
        m0
    };
    let m2 = if instruction_len > m1 {
        instruction_len
    } else {
        m1
    };
    let m3 = if m2 < 20 {
        20
    } else {
        m2
    };
    if m3 + 4 > 65535 {
        65535
    } else {
        m3 + 4
    }
}

/// The popup height for a list: one row per item, two for an
/// instruction when present, two for the borders, at least 5; clamped
/// to the cell range.
pub open spec fn spec_popup_height(n_items: int, has_instruction: bool) -> int {
    let ih: int = if has_instruction {
        2
    } else {
        0
    };
    let h = n_items + ih + 2;
    let h5 = if h < 5 {
        5
    } else {
        h
    };
    if h5 > 65535 {
        65535
    } else {
        h5
    }
}

/// Computes the popup size for a list of items.
pub fn popup_dimensions(
    item_widths: &Vec<usize>,
    title_len: usize,
    instruction_len: usize,
    has_instruction: bool,
) -> (r: (u16, u16))
    ensures
        r.0 as int == spec_popup_width(item_widths@, title_len as int, instruction_len as int),
        r.1 as int == spec_popup_height(item_widths@.len() as int, has_instruction),
{
    let n = item_widths.len();
    let mut m: usize = 0;
    let mut i: usize = 0;
    while i < n
        invariant
            n == item_widths.len(),
            i <= n,
            m as int == spec_max_width(item_widths@.take(i as int)),
        decreases n - i,
    {
        proof {
            assert(item_widths@.take(i + 1).drop_last() =~= item_widths@.take(i as int));
            assert(item_widths@.take(i + 1).last() == item_widths@[i as int]);
        }
        if item_widths[i] > m {
            m = item_widths[i];
        }
        i += 1;
    }
    proof {
        assert(item_widths@.take(n as int) =~= item_widths@);
    }
    let m1 = if title_len > m {
        title_len
    } else {
        m
    };
    let m2 = if instruction_len > m1 {
        instruction_len
    } else {
        m1
    };
    let m3 = if m2 < 20 {
        20
    } else {
        m2
    };
    let w: u16 = if m3 >= 65532 {
        65535
    } else {
        (m3 + 4) as u16
    };
    let ih: usize = if has_instruction {
        2
    } else {
        0
    };
    let h0 = if n >= 65533 {
        65535
    } else {
        n + ih + 2
    };
    let h1 = if h0 < 5 {
        5
    } else {
        h0
    };
    let h: u16 = if h1 > 65535 {
        65535
    } else {
        h1 as u16
    };
    (w, h)
}

/// ASCII capitalization of a token: an initial lowercase letter is
/// uppercased, anything else passes through.
pub open spec fn spec_capitalize(p: Seq<char>) -> Seq<char> {
    if p.len() > 0 && 'a' <= p[0] && p[0] <= 'z' {
        seq![upper_char(p[0])] + p.drop_first()
    } else {
        p
    }
}

/// Capitalizes the first character of a token.
pub fn capitalize(s: &str) -> (r: String)
    ensures
        r@ == spec_capitalize(s@),
{
    let n = s.unicode_len();
    if n == 0 {
        return String::new();
    }
    let c = s.get_char(0);
    if c >= 'a' && c <= 'z' {
        let i = ((c as u32) - 97) as usize;
        proof {
            reveal_strlit("ABCDEFGHIJKLMNOPQRSTUVWXYZ");
        }
        let up = "ABCDEFGHIJKLMNOPQRSTUVWXYZ".substring_char(i, i + 1);
        let rest = s.substring_char(1, n);
        let mut r = String::from_str(up);
        r.append(rest);
        proof {
            assert(up@ =~= seq![upper_char(s@[0])]);
            assert(rest@ =~= s@.drop_first());
        }
        r
    } else {
        String::from_str(s)
    }
}

/// The tokens with consecutive repeats removed, continuing after a
/// kept token `prev`.
pub open spec fn spec_dedup_from(ps: Seq<Seq<char>>, prev: Seq<char>) -> Seq<Seq<char>>
    decreases ps.len(),
{
    if ps.len() == 0 {
        Seq::empty()
    } else if ps[0] == prev {
        spec_dedup_from(ps.drop_first(), prev)
    } else {
        seq![ps[0]] + spec_dedup_from(ps.drop_first(), ps[0])
    }
}

/// The tokens with consecutive repeats removed.
pub open spec fn spec_dedup(ps: Seq<Seq<char>>) -> Seq<Seq<char>> {
    if ps.len() == 0 {
        Seq::empty()
    } else {
        seq![ps[0]] + spec_dedup_from(ps.drop_first(), ps[0])
    }
}

/// Removes consecutive repeated tokens.
pub fn dedup_consecutive(parts: &Vec<String>) -> (r: Vec<String>)
    ensures
        r.deep_view() == spec_dedup(parts.deep_view()),
        parts.len() > 0 ==> r.len() > 0,
{
    let n = parts.len();
    let mut out: Vec<String> = Vec::new();
    if n == 0 {
        proof {
            assert(out.deep_view() =~= spec_dedup(parts.deep_view()));
        }
        return out;
    }
    out.push(parts[0].clone());
    proof {
        assert(out.deep_view() =~= seq![parts.deep_view()[0]]);
        assert(parts.deep_view().skip(1) =~= parts.deep_view().drop_first());
    }
    let mut i: usize = 1;
    while i < n
        invariant
            n == parts.len(),
            1 <= i <= n,
            out.len() >= 1,
            out.deep_view() + spec_dedup_from(
                parts.deep_view().skip(i as int),
                out.deep_view().last(),
            ) == spec_dedup(parts.deep_view()),
        decreases n - i,
    {
        let ghost pre = out.deep_view();
        let ghost tail = parts.deep_view().skip(i as int);
        proof {
            assert(tail[0] == parts.deep_view()[i as int]);
            assert(tail.drop_first() =~= parts.deep_view().skip(i + 1));
        }
        let last_idx = out.len() - 1;
        let same = str_eq(parts[i].as_str(), out[last_idx].as_str());
        if !same {
            out.push(parts[i].clone());
            proof {
                assert(out.deep_view() =~= pre + seq![tail[0]]);
                assert(out.deep_view().last() == tail[0]);
                assert(pre + (seq![tail[0]] + spec_dedup_from(tail.drop_first(), tail[0])) =~= (pre
                    + seq![tail[0]]) + spec_dedup_from(tail.drop_first(), tail[0]));
            }
        }
        i += 1;
    }
    proof {
        assert(parts.deep_view().skip(n as int) =~= Seq::<Seq<char>>::empty());
        assert(out.deep_view() + Seq::<Seq<char>>::empty() =~= out.deep_view());
    }
    out
}

/// A token that starts the version tail: a rolling-release keyword or
/// any token holding a digit.
pub open spec fn spec_is_version_part(p: Seq<char>) -> bool {
    ||| p == "rolling"@
    ||| p == "latest"@
    ||| p == "edge"@
    ||| exists|i: int| 0 <= i < p.len() && is_digit_char(p[i])
}

/// Whether a token starts the version tail.
pub fn is_version_part(s: &str) -> (r: bool)
    ensures
        r == spec_is_version_part(s@),
{
    if str_eq(s, "rolling") || str_eq(s, "latest") || str_eq(s, "edge") {
        return true;
    }
    let n = s.unicode_len();
    let mut i: usize = 0;
    while i < n
        invariant
            n == s@.len(),
            i <= n,
            forall|k: int| 0 <= k < i ==> !is_digit_char(s@[k]),
        decreases n - i,
    {
        let c = s.get_char(i);
        if c >= '0' && c <= '9' {
            return true;
        }
        i += 1;
    }
    false
}

/// How many leading tokens of the tail precede the first version-like
/// token; the tail's length when there is none.
pub open spec fn spec_version_cut(tail: Seq<Seq<char>>) -> int
    decreases tail.len(),
{
    if tail.len() == 0 {
        0
    } else if spec_is_version_part(tail[0]) {
        0
    } else {
        1 + spec_version_cut(tail.drop_first())
    }
}

proof fn lemma_version_cut(tail: Seq<Seq<char>>)
    ensures
        0 <= spec_version_cut(tail) <= tail.len(),
        spec_version_cut(tail) < tail.len() ==> spec_is_version_part(tail[spec_version_cut(tail)]),
        forall|k: int| 0 <= k < spec_version_cut(tail) ==> !spec_is_version_part(tail[k]),
    decreases tail.len(),
{
    if tail.len() > 0 && !spec_is_version_part(tail[0]) {
        lemma_version_cut(tail.drop_first());
        let c = spec_version_cut(tail);
        assert forall|k: int| 0 <= k < c implies !spec_is_version_part(tail[k]) by {
            if k > 0 {
                assert(tail.drop_first()[k - 1] == tail[k]);
            }
        }
        if c < tail.len() {
            assert(tail.drop_first()[c - 1] == tail[c]);
        }
    }
}

/// `sep` placed between the tokens.
pub open spec fn spec_join_with(ps: Seq<Seq<char>>, sep: Seq<char>) -> Seq<char>
    decreases ps.len(),
{
    if ps.len() == 0 {
        Seq::empty()
    } else if ps.len() == 1 {
        ps[0]
    } else {
        ps[0] + sep + spec_join_with(ps.drop_first(), sep)
    }
}

/// Joins tokens with a separator.
pub fn join_with(parts: &Vec<String>, sep: &str) -> (r: String)
    ensures
        r@ == spec_join_with(parts.deep_view(), sep@),
{
    let n = parts.len();
    if n == 0 {
        let empty = String::new();
        proof {
            assert(empty@ =~= spec_join_with(parts.deep_view(), sep@));
        }
        return empty;
    }
    let mut acc = parts[n - 1].clone();
    proof {
        assert(parts.deep_view().skip(n - 1) =~= seq![parts.deep_view()[n - 1]]);
    }
    let mut i: usize = n - 1;
    while i > 0
        invariant
            n == parts.len(),
            i <= n - 1,
            acc@ == spec_join_with(parts.deep_view().skip(i as int), sep@),
        decreases i,
    {
        i = i - 1;
        let ghost tail = parts.deep_view().skip(i as int);
        proof {
            assert(tail[0] == parts.deep_view()[i as int]);
            assert(tail.drop_first() =~= parts.deep_view().skip(i + 1));
            assert(tail.len() >= 2);
        }
        let mut t = parts[i].clone();
        t.append(sep);
        t.append(acc.as_str());
        acc = t;
    }
    proof {
        assert(parts.deep_view().skip(0) =~= parts.deep_view());
    }
    acc
}

/// The display name and version readout parsed from a target identity
/// folder name: split at dashes, consecutive repeats dropped, each
/// token capitalized; tokens before the first version-like token (not
/// counting the leading family token) joined with spaces form the
/// name, the rest joined with dashes form the version.
pub open spec fn spec_display_parts(name: Seq<char>) -> (Seq<char>, Seq<char>) {
    let d = spec_dedup(spec_split(name, '-'));
    let j = 1 + spec_version_cut(d.drop_first());
    (
        spec_join_with(d.subrange(0, j).map_values(|p: Seq<char>| spec_capitalize(p)), " "@),
        spec_join_with(
            d.subrange(j, d.len() as int).map_values(|p: Seq<char>| spec_capitalize(p)),
            "-"@,
        ),
    )
}

/// The users other than `root`, in order.
pub open spec fn spec_non_root(users: Seq<Seq<char>>) -> Seq<Seq<char>>
    decreases users.len(),
{
    if users.len() == 0 {
        Seq::empty()
    } else {
        let rest = spec_non_root(users.drop_first());
        if users[0] == "root"@ {
            rest
        } else {
            seq![users[0]] + rest
        }
    }
}

/// The parenthesized account readout of an installed tree: `(root)`
/// alone, or `root &` the other accounts.
pub open spec fn spec_users_label(users: Seq<Seq<char>>) -> Seq<char> {
    if users.len() > 1 {
        "(root & "@ + spec_join_with(spec_non_root(users), ", "@) + ")"@
    } else {
        "(root)"@
    }
}

/// The dashboard line of an installed tree: its parsed display name,
/// the version readout in parentheses when there is one, then the
/// account readout.
pub open spec fn spec_entry_label(name: Seq<char>, users: Seq<Seq<char>>) -> Seq<char> {
    let display = spec_display_parts(name).0;
    let version = spec_display_parts(name).1;
    let shown = if version.len() > 0 {
        display + " ("@ + version + ")"@
    } else {
        display
    };
    shown + " "@ + spec_users_label(users)
}

fn non_root_users(users: &Vec<String>) -> (r: Vec<String>)
    ensures
        r.deep_view() == spec_non_root(users.deep_view()),
{
    let n = users.len();
    let mut out: Vec<String> = Vec::new();
    let mut i: usize = 0;
    proof {
        assert(users.deep_view().skip(0) =~= users.deep_view());
    }
    while i < n
        invariant
            n == users.len(),
            i <= n,
            out.deep_view() + spec_non_root(users.deep_view().skip(i as int)) == spec_non_root(
                users.deep_view(),
            ),
        decreases n - i,
    {
        let ghost pre = out.deep_view();
        let ghost tail = users.deep_view().skip(i as int);
        proof {
            assert(tail[0] == users.deep_view()[i as int]);
            assert(tail.drop_first() =~= users.deep_view().skip(i + 1));
            assert(users@[i as int]@ == users.deep_view()[i as int]);
        }
        if !str_eq(users[i].as_str(), "root") {
            out.push(users[i].clone());
            proof {
                assert(out.deep_view() =~= pre + seq![tail[0]]);
                assert(pre + (seq![tail[0]] + spec_non_root(tail.drop_first())) =~= (pre + seq![
                    tail[0]
                ]) + spec_non_root(tail.drop_first()));
            }
        }
        i += 1;
    }
    proof {
        assert(users.deep_view().skip(n as int) =~= Seq::<Seq<char>>::empty());
        assert(out.deep_view() + Seq::<Seq<char>>::empty() =~= out.deep_view());
    }
    out
}

/// Builds the dashboard line for an installed tree.
pub fn installed_entry_label(name: &str, users: &Vec<String>) -> (r: String)
    ensures
        r@ == spec_entry_label(name@, users.deep_view()),
{
    let (display, version) = parse_distro_display_name(name);
    let mut shown = display;
    if version.as_str().unicode_len() > 0 {
        shown.append(" (");
        shown.append(version.as_str());
        shown.append(")");
    }
    shown.append(" ");
    if users.len() > 1 {
        let others = non_root_users(users);
        let joined = join_with(&others, ", ");
        shown.append("(root & ");
        shown.append(joined.as_str());
        shown.append(")");
    } else {
        shown.append("(root)");
    }
    shown
}

/// Splits a target identity folder name into a human-readable
/// distribution name and version readout.
pub fn parse_distro_display_name(name: &str) -> (r: (String, String))
    ensures
        r.0@ == spec_display_parts(name@).0,
        r.1@ == spec_display_parts(name@).1,
{
    let parts = split_char(name, '-');
    let d = dedup_consecutive(&parts);
    let n = d.len();
    let ghost dv = d.deep_view();
    proof {
        lemma_version_cut(dv.drop_first());
    }
    let mut j: usize = 1;
    while j < n && !is_version_part(d[j].as_str())
        invariant
            n == d.len(),
            dv == d.deep_view(),
            n >= 1,
            1 <= j <= n,
            forall|k: int| 1 <= k < j ==> !spec_is_version_part(dv[k]),
        decreases n - j,
    {
        proof {
            assert(d@[j as int]@ == dv[j as int]);
        }
        j += 1;
    }
    proof {
        assert(d@[j as int]@ == dv[j as int] || j == n);
        let c = spec_version_cut(dv.drop_first());
        assert forall|k: int| 0 <= k < j - 1 implies !spec_is_version_part(
            dv.drop_first()[k],
        ) by {
            assert(dv.drop_first()[k] == dv[k + 1]);
        }
        if j < n {
            assert(spec_is_version_part(dv[j as int]));
            assert(dv.drop_first()[j - 1] == dv[j as int]);
            assert(c == j - 1) by {
                if c < j - 1 {
                    assert(!spec_is_version_part(dv.drop_first()[c]));
                    assert(spec_is_version_part(dv.drop_first()[c]));
                }
            }
        } else {
            assert(c <= dv.drop_first().len());
            assert(c == j - 1) by {
                if c < j - 1 {
                    assert(!spec_is_version_part(dv.drop_first()[c]));
                    assert(spec_is_version_part(dv.drop_first()[c]));
                }
            }
        }
        assert(j as int == 1 + spec_version_cut(dv.drop_first()));
    }
    let mut name_parts: Vec<String> = Vec::new();
    let mut i: usize = 0;
    while i < j
        invariant
            n == d.len(),
            dv == d.deep_view(),
            j <= n,
            i <= j,
            name_parts.deep_view().len() == i,
            forall|l: int|
                0 <= l < i ==> name_parts.deep_view()[l] == spec_capitalize(dv[l]),
        decreases j - i,
    {
        proof {
            assert(d@[i as int]@ == dv[i as int]);
        }
        let ghost pre = name_parts.deep_view();
        name_parts.push(capitalize(d[i].as_str()));
        proof {
            let nv = name_parts.deep_view();
            assert(nv[i as int] == spec_capitalize(dv[i as int]));
            assert forall|l: int| 0 <= l < i implies nv[l] == spec_capitalize(dv[l]) by {
                assert(nv[l] == pre[l]);
            }
        }
        i += 1;
    }
    let mut version_parts: Vec<String> = Vec::new();
    let mut k: usize = j;
    while k < n
        invariant
            n == d.len(),
            dv == d.deep_view(),
            j <= k <= n,
            version_parts.deep_view().len() == k - j,
            forall|l: int|
                0 <= l < k - j ==> version_parts.deep_view()[l] == spec_capitalize(dv[j + l]),
        decreases n - k,
    {
        proof {
            assert(d@[k as int]@ == dv[k as int]);
        }
        let ghost pre = version_parts.deep_view();
        version_parts.push(capitalize(d[k].as_str()));
        proof {
            let nv = version_parts.deep_view();
            assert(nv[k - j] == spec_capitalize(dv[k as int]));
            assert forall|l: int| 0 <= l < k - j implies nv[l] == spec_capitalize(dv[j + l]) by {
                assert(nv[l] == pre[l]);
            }
        }
        k += 1;
    }
    proof {
        assert(name_parts.deep_view() =~= dv.subrange(0, j as int).map_values(
            |p: Seq<char>| spec_capitalize(p),
        )) by {
            assert forall|l: int| 0 <= l < j implies name_parts.deep_view()[l] == dv.subrange(
                0,
                j as int,
            ).map_values(|p: Seq<char>| spec_capitalize(p))[l] by {
                assert(dv.subrange(0, j as int)[l] == dv[l]);
            }
        }
        assert(version_parts.deep_view() =~= dv.subrange(j as int, dv.len() as int).map_values(
            |p: Seq<char>| spec_capitalize(p),
        )) by {
            assert forall|l: int| 0 <= l < n - j implies version_parts.deep_view()[l]
                == dv.subrange(j as int, dv.len() as int).map_values(
                |p: Seq<char>| spec_capitalize(p),
            )[l] by {
                assert(dv.subrange(j as int, dv.len() as int)[l] == dv[j + l]);
            }
        }
    }
    let display = join_with(&name_parts, " ");
    let version = join_with(&version_parts, "-");
    (display, version)
}

} // verus!
