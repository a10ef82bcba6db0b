//! Native file dialogs: what the engine hands the desktop's dialog (title,
//! start directory, allowed extensions) and what it gives back to the host
//! application (the chosen paths as a JSON array).

use vstd::prelude::*;
use vstd::string::*;

verus! {

/// Which dialog is shown.
#[derive(Clone, Copy, Debug, PartialEq, Eq, Structural)]
pub enum DialogKind {
    Open,
    Save,
}

/// The title shown when none is given.
pub open spec fn default_title(kind: DialogKind) -> Seq<char> {
    match kind {
        DialogKind::Open => "Open File"@,
        DialogKind::Save => "Save File"@,
    }
}

/// The dialog's title: the given one, or the default when none or an
/// empty one is given.
pub fn dialog_title(given: Option<&str>, kind: DialogKind) -> (t: String)
    ensures
        t@ == match given {
            Some(g) => if g@.len() > 0 {
                g@
            } else {
                default_title(kind)
            },
            None => default_title(kind),
        },
{
    if let Some(g) = given {
        if g.unicode_len() > 0 {
            return String::from_str(g);
        }
    }
    match kind {
        DialogKind::Open => String::from_str("Open File"),
        DialogKind::Save => String::from_str("Save File"),
    }
}

/// The directory the dialog starts in: the given one unless none or an
/// empty one is given.
pub fn dialog_directory(given: Option<&str>) -> (d: Option<String>)
    ensures
        match given {
            Some(g) => if g@.len() > 0 {
                d matches Some(s) && s@ == g@
            } else {
                d is None
            },
            None => d is None,
        },
{
    match given {
        Some(g) => if g.unicode_len() > 0 {
            Some(String::from_str(g))
        } else {
            None
        },
        None => None,
    }
}

/// A white-space character: what `char::is_whitespace` accepts (the
/// Unicode White_Space property).
pub open spec fn is_white_space(c: char) -> bool {
    let u = c as u32;
    (0x9 <= u && u <= 0xd) || u == 0x20 || u == 0x85 || u == 0xa0 || u == 0x1680 || (0x2000 <= u
        && u <= 0x200a) || u == 0x2028 || u == 0x2029 || u == 0x202f || u == 0x205f || u == 0x3000
}

fn white(c: char) -> (b: bool)
    ensures
        b == is_white_space(c),
{
    let u = c as u32;
    (0x9 <= u && u <= 0xd) || u == 0x20 || u == 0x85 || u == 0xa0 || u == 0x1680 || (0x2000 <= u
        && u <= 0x200a) || u == 0x2028 || u == 0x2029 || u == 0x202f || u == 0x205f || u == 0x3000
}

/// The text without its leading white space.
pub open spec fn trim_start(p: Seq<char>) -> Seq<char>
    decreases p.len(),
{
    if p.len() > 0 && is_white_space(p[0]) {
        trim_start(p.drop_first())
    } else {
        p
    }
}

/// The text without its trailing white space.
pub open spec fn trim_end(p: Seq<char>) -> Seq<char>
    decreases p.len(),
{
    if p.len() > 0 && is_white_space(p.last()) {
        trim_end(p.drop_last())
    } else {
        p
    }
}

/// The text without leading and trailing white space.
pub open spec fn trim(p: Seq<char>) -> Seq<char> {
    trim_end(trim_start(p))
}

/// The parts of a text between its commas (one more part than commas).
pub open spec fn split_commas(s: Seq<char>) -> Seq<Seq<char>>
    decreases s.len(),
{
    if s.len() == 0 {
        seq![Seq::empty()]
    } else {
        let prev = split_commas(s.drop_last());
        if s.last() == ',' {
            prev.push(Seq::empty())
        } else {
            prev.update(prev.len() - 1, prev.last().push(s.last()))
        }
    }
}

/// The non-empty texts, in order.
pub open spec fn keep_nonempty(ps: Seq<Seq<char>>) -> Seq<Seq<char>>
    decreases ps.len(),
{
    if ps.len() == 0 {
        Seq::empty()
    } else {
        let prev = keep_nonempty(ps.drop_last());
        if ps.last().len() > 0 {
            prev.push(ps.last())
        } else {
            prev
        }
    }
}

/// The extensions in a comma-separated list: each part trimmed of white
/// space, empty parts left out.
pub open spec fn spec_split_filters(s: Seq<char>) -> Seq<Seq<char>> {
    keep_nonempty(split_commas(s).map_values(|p: Seq<char>| trim(p)))
}

/// The texts of a list of strings.
pub open spec fn strings_view(v: Seq<String>) -> Seq<Seq<char>> {
    v.map_values(|s: String| s@)
}

/// The trimmed part of `s[a..b]`.
fn trim_range(s: &str, a: usize, b: usize) -> (r: (usize, usize))
    requires
        a <= b <= s@.len(),
    ensures
        a <= r.0 <= r.1 <= b,
        s@.subrange(r.0 as int, r.1 as int) == trim(s@.subrange(a as int, b as int)),
{
    let mut x = a;
    while x < b && white(s.get_char(x))
        invariant
            a <= x <= b,
            b <= s@.len(),
            trim_start(s@.subrange(a as int, b as int)) == trim_start(s@.subrange(x as int, b as int)),
        decreases b - x,
    {
        assert(s@.subrange(x as int, b as int).drop_first() =~= s@.subrange(x + 1, b as int));
        x = x + 1;
    }
    assert(trim_start(s@.subrange(x as int, b as int)) == s@.subrange(x as int, b as int));
    let mut y = b;
    while y > x && white(s.get_char(y - 1))
        invariant
            x <= y <= b,
            b <= s@.len(),
            trim_end(s@.subrange(x as int, b as int)) == trim_end(s@.subrange(x as int, y as int)),
        decreases y - x,
    {
        assert(s@.subrange(x as int, y as int).drop_last() =~= s@.subrange(x as int, y - 1));
        y = y - 1;
    }
    assert(trim_end(s@.subrange(x as int, y as int)) == s@.subrange(x as int, y as int));
    (x, y)
}

/// Appends the trimmed part of `s[a..b]` unless it is empty.
fn push_trimmed(out: &mut Vec<String>, s: &str, a: usize, b: usize)
    requires
        a <= b <= s@.len(),
    ensures
        strings_view(final(out)@) == if trim(s@.subrange(a as int, b as int)).len() > 0 {
            strings_view(old(out)@).push(trim(s@.subrange(a as int, b as int)))
        } else {
            strings_view(old(out)@)
        },
{
    let (x, y) = trim_range(s, a, b);
    if x < y {
        let part = String::from_str(s.substring_char(x, y));
        let ghost before = out@;
        out.push(part);
        assert(strings_view(out@) =~= strings_view(before).push(part@));
    }
}

/// The extensions a dialog allows, from a comma-separated list such as
/// `"png, jpg,,jpeg"`: each part trimmed of white space, empty parts left
/// out.
pub fn dialog_extensions(filters: &str) -> (exts: Vec<String>)
    ensures
        strings_view(exts@) == spec_split_filters(filters@),
{
    let n = filters.unicode_len();
    let mut out: Vec<String> = Vec::new();
    let mut start: usize = 0;
    let mut i: usize = 0;
    let ghost mut done: Seq<Seq<char>> = Seq::empty();
    assert(filters@.subrange(0, 0) =~= Seq::<char>::empty());
    assert(split_commas(Seq::<char>::empty()) =~= done.push(filters@.subrange(0, 0)));
    assert(strings_view(out@) =~= keep_nonempty(done.map_values(|p: Seq<char>| trim(p))));
    while i < n
        invariant
            n == filters@.len(),
            start <= i <= n,
            split_commas(filters@.subrange(0, i as int)) == done.push(
                filters@.subrange(start as int, i as int),
            ),
            strings_view(out@) == keep_nonempty(done.map_values(|p: Seq<char>| trim(p))),
        decreases n - i,
    {
        let c = filters.get_char(i);
        let ghost piece = filters@.subrange(start as int, i as int);
        assert(filters@.subrange(0, i + 1).drop_last() =~= filters@.subrange(0, i as int));
        if c == ',' {
            push_trimmed(&mut out, filters, start, i);
            proof {
                let d2 = done.push(piece);
                assert(d2.map_values(|p: Seq<char>| trim(p)) =~= done.map_values(
                    |p: Seq<char>| trim(p),
                ).push(trim(piece)));
                assert(d2.map_values(|p: Seq<char>| trim(p)).drop_last() =~= done.map_values(
                    |p: Seq<char>| trim(p),
                ));
                done = d2;
                assert(filters@.subrange(i + 1, i + 1) =~= Seq::<char>::empty());
                assert(split_commas(filters@.subrange(0, i + 1)) =~= done.push(
                    filters@.subrange(i + 1, i + 1),
                ));
            }
            start = i + 1;
        } else {
            proof {
                assert(filters@.subrange(start as int, i + 1) =~= piece.push(c));
                assert(split_commas(filters@.subrange(0, i + 1)) =~= done.push(
                    filters@.subrange(start as int, i + 1),
                ));
            }
        }
        i = i + 1;
    }
    let ghost last = filters@.subrange(start as int, n as int);
    push_trimmed(&mut out, filters, start, n);
    proof {
        let d2 = done.push(last);
        assert(d2.map_values(|p: Seq<char>| trim(p)) =~= done.map_values(|p: Seq<char>| trim(p)).push(
            trim(last),
        ));
        assert(d2.map_values(|p: Seq<char>| trim(p)).drop_last() =~= done.map_values(
            |p: Seq<char>| trim(p),
        ));
        assert(filters@.subrange(0, n as int) =~= filters@);
    }
    out
}

/// The extension filter of a dialog: the extensions of the given list, or
/// none (all files) when no list is given or it names no extension.
pub fn dialog_filter(filters: Option<&str>) -> (f: Option<Vec<String>>)
    ensures
        match filters {
            Some(s) => if spec_split_filters(s@).len() > 0 {
                f matches Some(exts) && strings_view(exts@) == spec_split_filters(s@)
            } else {
                f is None
            },
            None => f is None,
        },
{
    match filters {
        Some(s) => {
            let exts = dialog_extensions(s);
            if exts.len() > 0 {
                Some(exts)
            } else {
                None
            }
        },
        None => None,
    }
}

proof fn lemma_split_commas_parts(s: Seq<char>)
    ensures
        split_commas(s).len() >= 1,
        forall|i: int| 0 <= i < split_commas(s).len() ==> !(#[trigger] split_commas(s)[i]).contains(','),
        !s.contains(',') ==> split_commas(s) == seq![s],
    decreases s.len(),
{
    if s.len() == 0 {
        assert(s =~= Seq::<char>::empty());
    } else {
        let prev = split_commas(s.drop_last());
        lemma_split_commas_parts(s.drop_last());
        let c = s.last();
        if c != ',' {
            let last = prev.last().push(c);
            assert(!last.contains(',')) by {
                if last.contains(',') {
                    let j = choose|j: int| 0 <= j < last.len() && last[j] == ',';
                    assert(prev.last()[j] == ',');
                    assert(prev[prev.len() - 1].contains(','));
                }
            }
            let r = split_commas(s);
            assert forall|i: int| 0 <= i < r.len() implies !(#[trigger] r[i]).contains(',') by {
                if i < r.len() - 1 {
                    assert(r[i] == prev[i]);
                }
            }
            if !s.contains(',') {
                assert(!s.drop_last().contains(',')) by {
                    if s.drop_last().contains(',') {
                        let j = choose|j: int| 0 <= j < s.drop_last().len() && s.drop_last()[j] == ',';
                        assert(s[j] == ',');
                    }
                }
                assert(s.drop_last().push(c) =~= s);
                assert(split_commas(s) =~= seq![s]);
            }
        } else {
            let r = split_commas(s);
            assert forall|i: int| 0 <= i < r.len() implies !(#[trigger] r[i]).contains(',') by {
                if i < r.len() - 1 {
                    assert(r[i] == prev[i]);
                }
            }
            assert(s[s.len() - 1] == ',');
        }
    }
}

proof fn lemma_trim_start_suffix(p: Seq<char>)
    ensures
        trim_start(p).len() <= p.len(),
        trim_start(p) == p.subrange(p.len() - trim_start(p).len(), p.len() as int),
        trim_start(p).len() > 0 ==> !is_white_space(trim_start(p)[0]),
    decreases p.len(),
{
    if p.len() > 0 && is_white_space(p[0]) {
        lemma_trim_start_suffix(p.drop_first());
        let t = trim_start(p);
        assert(p.drop_first().subrange(p.len() - 1 - t.len(), p.len() - 1) =~= p.subrange(
            p.len() - t.len(),
            p.len() as int,
        ));
    } else {
        assert(p.subrange(0, p.len() as int) =~= p);
    }
}

proof fn lemma_trim_end_prefix(q: Seq<char>)
    ensures
        trim_end(q).len() <= q.len(),
        trim_end(q) == q.subrange(0, trim_end(q).len() as int),
        trim_end(q).len() > 0 ==> !is_white_space(trim_end(q).last()),
    decreases q.len(),
{
    if q.len() > 0 && is_white_space(q.last()) {
        lemma_trim_end_prefix(q.drop_last());
        let t = trim_end(q);
        assert(q.drop_last().subrange(0, t.len() as int) =~= q.subrange(0, t.len() as int));
    } else {
        assert(q.subrange(0, q.len() as int) =~= q);
    }
}

/// A trimmed text neither starts nor ends with white space, holds only
/// characters of the text (so no comma when the text has none), and a
/// text that neither starts nor ends with white space is its own trim.
proof fn lemma_trim_props(p: Seq<char>)
    ensures
        trim(p).len() > 0 ==> !is_white_space(trim(p)[0]) && !is_white_space(trim(p).last()),
        !p.contains(',') ==> !trim(p).contains(','),
        (p.len() > 0 && !is_white_space(p[0]) && !is_white_space(p.last())) ==> trim(p) == p,
{
    let ts = trim_start(p);
    let t = trim(p);
    lemma_trim_start_suffix(p);
    lemma_trim_end_prefix(ts);
    let k = p.len() - ts.len();
    if t.len() > 0 {
        assert(t[0] == ts[0]);
    }
    if t.contains(',') {
        let j = choose|j: int| 0 <= j < t.len() && t[j] == ',';
        assert(t[j] == ts[j]);
        assert(ts[j] == p[k + j]);
        assert(p.contains(','));
    }
    if p.len() > 0 && !is_white_space(p[0]) && !is_white_space(p.last()) {
        assert(ts == p);
        assert(trim_end(p) == p);
    }
}

proof fn lemma_keep_nonempty_from(ps: Seq<Seq<char>>)
    ensures
        keep_nonempty(ps).len() <= ps.len(),
        forall|i: int|
            0 <= i < keep_nonempty(ps).len() ==> (#[trigger] keep_nonempty(ps)[i]).len() > 0 && exists|
                j: int,
            |
                0 <= j < ps.len() && keep_nonempty(ps)[i] == #[trigger] ps[j],
    decreases ps.len(),
{
    if ps.len() > 0 {
        let prev = ps.drop_last();
        lemma_keep_nonempty_from(prev);
        let k = keep_nonempty(ps);
        assert forall|i: int| 0 <= i < k.len() implies (#[trigger] k[i]).len() > 0 && exists|j: int|
            0 <= j < ps.len() && k[i] == #[trigger] ps[j] by {
            if i < keep_nonempty(prev).len() {
                assert(k[i] == keep_nonempty(prev)[i]);
                let j = choose|j: int| 0 <= j < prev.len() && keep_nonempty(prev)[i] == #[trigger] prev[j];
                assert(ps[j] == prev[j]);
            } else {
                assert(k[i] == ps[ps.len() - 1]);
            }
        }
    }
}

/// Every extension taken from a filter list is non-empty, neither starts
/// nor ends with white space and holds no comma; there are never more
/// extensions than comma-separated parts; and a list without commas gives
/// its trimmed text as its one extension (none when the text is blank).
pub proof fn lemma_extensions_are_clean(s: Seq<char>)
    ensures
        spec_split_filters(s).len() <= split_commas(s).len(),
        forall|i: int|
            0 <= i < spec_split_filters(s).len() ==> {
                let e = #[trigger] spec_split_filters(s)[i];
                &&& e.len() > 0
                &&& !is_white_space(e[0])
                &&& !is_white_space(e.last())
                &&& !e.contains(',')
            },
        !s.contains(',') ==> spec_split_filters(s) == if trim(s).len() > 0 {
            seq![trim(s)]
        } else {
            Seq::<Seq<char>>::empty()
        },
{
    let parts = split_commas(s);
    let trimmed = parts.map_values(|p: Seq<char>| trim(p));
    lemma_split_commas_parts(s);
    lemma_keep_nonempty_from(trimmed);
    let exts = spec_split_filters(s);
    assert forall|i: int| 0 <= i < exts.len() implies {
        let e = #[trigger] exts[i];
        &&& e.len() > 0
        &&& !is_white_space(e[0])
        &&& !is_white_space(e.last())
        &&& !e.contains(',')
    } by {
        let j = choose|j: int| 0 <= j < trimmed.len() && exts[i] == #[trigger] trimmed[j];
        assert(trimmed[j] == trim(parts[j]));
        assert(!parts[j].contains(','));
        lemma_trim_props(parts[j]);
    }
    if !s.contains(',') {
        assert(trimmed =~= seq![trim(s)]);
        assert(seq![trim(s)].drop_last() =~= Seq::<Seq<char>>::empty());
        assert(keep_nonempty(Seq::<Seq<char>>::empty()) == Seq::<Seq<char>>::empty());
        if trim(s).len() > 0 {
            assert(keep_nonempty(seq![trim(s)]) =~= seq![trim(s)]);
        } else {
            assert(keep_nonempty(seq![trim(s)]) =~= Seq::<Seq<char>>::empty());
        }
    }
}

/// A lowercase hexadecimal digit.
pub open spec fn hex_digit(d: int) -> char {
    if d < 10 {
        (48 + d) as char
    } else {
        (87 + d) as char
    }
}

/// A character as it stands inside a JSON string: `"` and `\` escaped
/// with a backslash, backspace, tab, line feed, form feed and carriage
/// return as `\b`, `\t`, `\n`, `\f`, `\r`, the other characters below
/// U+0020 as `\u00XX` (lowercase hex), every other character as it is.
pub open spec fn json_char(c: char) -> Seq<char> {
    let u = c as u32;
    if c == '"' {
        seq!['\\', '"']
    } else if c == '\\' {
        seq!['\\', '\\']
    } else if u == 8 {
        seq!['\\', 'b']
    } else if u == 9 {
        seq!['\\', 't']
    } else if u == 10 {
        seq!['\\', 'n']
    } else if u == 12 {
        seq!['\\', 'f']
    } else if u == 13 {
        seq!['\\', 'r']
    } else if u < 0x20 {
        seq!['\\', 'u', '0', '0', hex_digit(u as int / 16), hex_digit(u as int % 16)]
    } else {
        seq![c]
    }
}

/// The characters of a text, each as it stands inside a JSON string.
pub open spec fn json_chars(s: Seq<char>) -> Seq<char>
    decreases s.len(),
{
    if s.len() == 0 {
        Seq::empty()
    } else {
        json_chars(s.drop_last()) + json_char(s.last())
    }
}

/// A text as a JSON string.
pub open spec fn json_string(s: Seq<char>) -> Seq<char> {
    seq!['"'] + json_chars(s) + seq!['"']
}

/// The JSON strings of the texts, separated by commas.
pub open spec fn json_items(items: Seq<Seq<char>>) -> Seq<char>
    decreases items.len(),
{
    if items.len() == 0 {
        Seq::empty()
    } else if items.len() == 1 {
        json_string(items[0])
    } else {
        json_items(items.drop_last()) + seq![','] + json_string(items.last())
    }
}

/// The compact JSON text of an array of strings.
pub open spec fn json_string_array(items: Seq<Seq<char>>) -> Seq<char> {
    seq!['['] + json_items(items) + seq![']']
}

/// `serde_json::to_string` on a list of strings: the compact JSON array of
/// those strings. Writing strings into memory does not fail.
#[verifier::external_body]
fn strings_to_json(items: &Vec<String>) -> (r: Option<String>)
    ensures
        r is Some,
        r matches Some(j) ==> j@ == json_string_array(strings_view(items@)),
{
    serde_json::to_string(items).ok()
}

/// What an open dialog hands back: nothing when it was cancelled,
/// otherwise the JSON array of the chosen paths.
pub fn selected_paths_result(paths: Option<Vec<String>>) -> (r: Option<String>)
    ensures
        paths is None ==> r is None,
        paths matches Some(ps) ==> (r matches Some(j) && j@ == json_string_array(
            strings_view(ps@),
        )),
{
    match paths {
        None => None,
        Some(ps) => strings_to_json(&ps),
    }
}

} // verus!
