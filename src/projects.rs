//! The list of projects offered to the user: found directories, each listed
//! once, in the order of their names.
use vstd::prelude::*;
use vstd::string::*;
use vstd::seq_lib::*;
use crate::text::{slashed, normalize_path_case, same_text};

verus! {

broadcast use vstd::seq_lib::group_to_multiset_ensures;

/// A project directory as the user sees it.
pub struct ProjectItem {
    pub name: String,
    pub path: String,
    /// Where it was found.
    pub source: String,
}

/// A project as text: its name, its path and its source.
pub type ProjectText = (Seq<char>, Seq<char>, Seq<char>);

/// The texts of a project.
pub open spec fn text_of(p: ProjectItem) -> ProjectText {
    (p.name@, p.path@, p.source@)
}

/// The texts of a list of projects.
pub open spec fn texts_of(s: Seq<ProjectItem>) -> Seq<ProjectText> {
    s.map_values(|p: ProjectItem| text_of(p))
}

/// A found project as listed: its path written with forward slashes.
pub open spec fn listed(p: ProjectItem) -> ProjectText {
    (p.name@, slashed(p.path@), p.source@)
}

/// `c` in lower case, where it is an ASCII capital.
pub open spec fn lower_char(c: char) -> char {
    if 'A' <= c && c <= 'Z' {
        ((c as u32) + 32) as char
    } else {
        c
    }
}

/// `s` with its ASCII capitals in lower case.
pub open spec fn ascii_lower(s: Seq<char>) -> Seq<char> {
    s.map_values(|c: char| lower_char(c))
}

/// Two listed projects are the same where their paths agree but for ASCII case.
pub open spec fn key_of(t: ProjectText) -> Seq<char> {
    ascii_lower(t.1)
}

/// Some project of `s` has the key `k`.
pub open spec fn has_key(s: Seq<ProjectText>, k: Seq<char>) -> bool {
    exists|i: int| 0 <= i < s.len() && key_of(#[trigger] s[i]) == k
}

/// The first `n` found projects, each listed once: a project whose path
/// repeats an earlier one is left out.
pub open spec fn first_of_each(items: Seq<ProjectItem>, n: nat) -> Seq<ProjectText>
    decreases n,
{
    if n == 0 {
        Seq::empty()
    } else {
        let before = first_of_each(items, (n - 1) as nat);
        let t = listed(items[n - 1]);
        if has_key(before, key_of(t)) {
            before
        } else {
            before.push(t)
        }
    }
}

/// `a` comes strictly before `b` in the order of their characters.
pub open spec fn text_lt(a: Seq<char>, b: Seq<char>) -> bool
    decreases a.len(),
{
    if b.len() == 0 {
        false
    } else if a.len() == 0 {
        true
    } else if a[0] != b[0] {
        a[0] < b[0]
    } else {
        text_lt(a.drop_first(), b.drop_first())
    }
}

/// Each project's name comes no later than those of the projects after it.
pub open spec fn sorted_by_name(s: Seq<ProjectText>) -> bool {
    forall|i: int, j: int| 0 <= i < j < s.len() ==> !text_lt(#[trigger] s[j].0, #[trigger] s[i].0)
}

/// `s` with `t` placed after every project whose name does not come after
/// its own.
pub open spec fn insert_by_name(s: Seq<ProjectText>, t: ProjectText) -> Seq<ProjectText>
    decreases s.len(),
{
    if s.len() == 0 {
        seq![t]
    } else if text_lt(t.0, s[0].0) {
        seq![t] + s
    } else {
        seq![s[0]] + insert_by_name(s.drop_first(), t)
    }
}

/// The projects `items` in the order of their names; those with equal names
/// keep the order in which they come in `items`.
pub open spec fn sorted_stably(items: Seq<ProjectText>) -> Seq<ProjectText>
    decreases items.len(),
{
    if items.len() == 0 {
        Seq::empty()
    } else {
        insert_by_name(sorted_stably(items.drop_last()), items.last())
    }
}

/// Placing `t` at the first position whose name comes after its own is
/// placing it by name.
pub proof fn insert_at_first_later(s: Seq<ProjectText>, t: ProjectText, pos: int)
    requires
        0 <= pos <= s.len(),
        forall|k: int| 0 <= k < pos ==> !text_lt(t.0, #[trigger] s[k].0),
        pos < s.len() ==> text_lt(t.0, s[pos].0),
    ensures
        insert_by_name(s, t) == s.insert(pos, t),
    decreases s.len(),
{
    if s.len() == 0 {
        assert(s.insert(pos, t) =~= seq![t]);
    } else if pos == 0 {
        assert(s.insert(pos, t) =~= seq![t] + s);
    } else {
        assert(!text_lt(t.0, s[0].0));
        let rest = s.drop_first();
        assert forall|k: int| 0 <= k < pos - 1 implies !text_lt(t.0, #[trigger] rest[k].0) by {
            assert(rest[k] == s[k + 1]);
        }
        insert_at_first_later(rest, t, pos - 1);
        assert(seq![s[0]] + rest.insert(pos - 1, t) =~= s.insert(pos, t));
    }
}

/// The order of texts is transitive.
pub proof fn text_lt_transitive(a: Seq<char>, b: Seq<char>, c: Seq<char>)
    requires
        text_lt(a, b),
        text_lt(b, c),
    ensures
        text_lt(a, c),
    decreases a.len(),
{
    if a.len() > 0 && b.len() > 0 && c.len() > 0 && a[0] == b[0] && b[0] == c[0] {
        text_lt_transitive(a.drop_first(), b.drop_first(), c.drop_first());
    }
}

/// No text comes before itself.
pub proof fn text_lt_irreflexive(a: Seq<char>)
    ensures
        !text_lt(a, a),
    decreases a.len(),
{
    if a.len() > 0 {
        text_lt_irreflexive(a.drop_first());
    }
}

/// Whether `a` comes strictly before `b` in the order of their characters.
pub fn text_less(a: &str, b: &str) -> (r: bool)
    ensures
        r == text_lt(a@, b@),
{
    let na = a.unicode_len();
    let nb = b.unicode_len();
    let mut i: usize = 0;
    assert(a@.skip(0) =~= a@);
    assert(b@.skip(0) =~= b@);
    while i < na && i < nb
        invariant
            na == a@.len(),
            nb == b@.len(),
            i <= na,
            i <= nb,
            text_lt(a@, b@) == text_lt(a@.skip(i as int), b@.skip(i as int)),
        decreases na - i,
    {
        let ca = a.get_char(i);
        let cb = b.get_char(i);
        if ca != cb {
            return ca < cb;
        }
        assert(a@.skip(i as int).drop_first() =~= a@.skip(i + 1));
        assert(b@.skip(i as int).drop_first() =~= b@.skip(i + 1));
        i = i + 1;
    }
    i == na && i < nb
}

/// `s` with its ASCII capitals in lower case.
pub fn to_ascii_lower(s: &str) -> (r: String)
    ensures
        r@ == ascii_lower(s@),
{
    let n = s.unicode_len();
    let mut out = String::new();
    let mut i: usize = 0;
    proof {
        reveal_strlit("abcdefghijklmnopqrstuvwxyz");
    }
    while i < n
        invariant
            n == s@.len(),
            i <= n,
            out@ == ascii_lower(s@.subrange(0, i as int)),
            "abcdefghijklmnopqrstuvwxyz"@ == seq![
                'a', 'b', 'c', 'd', 'e', 'f', 'g', 'h', 'i', 'j', 'k', 'l', 'm',
                'n', 'o', 'p', 'q', 'r', 's', 't', 'u', 'v', 'w', 'x', 'y', 'z',
            ],
        decreases n - i,
    {
        let c = s.get_char(i);
        if 'A' <= c && c <= 'Z' {
            let k = (c as u32 - 'A' as u32) as usize;
            let piece = "abcdefghijklmnopqrstuvwxyz".substring_char(k, k + 1);
            assert(piece@ =~= seq![lower_char(c)]);
            out.append(piece);
        } else {
            out.append(s.substring_char(i, i + 1));
        }
        assert(s@.subrange(0, i + 1) =~= s@.subrange(0, i as int).push(c));
        assert(out@ =~= ascii_lower(s@.subrange(0, i + 1)));
        i = i + 1;
    }
    assert(s@.subrange(0, n as int) =~= s@);
    out
}

/// The found projects, each listed once (the first of those whose paths
/// agree but for ASCII case), with forward slashes in their paths.
pub fn distinct_projects(found: Vec<ProjectItem>) -> (r: Vec<ProjectItem>)
    ensures
        texts_of(r@) == first_of_each(found@, found@.len()),
{
    let mut out: Vec<ProjectItem> = Vec::new();
    let mut keys: Vec<String> = Vec::new();
    let mut i: usize = 0;
    while i < found.len()
        invariant
            i <= found@.len(),
            texts_of(out@) == first_of_each(found@, i as nat),
            keys@.len() == out@.len(),
            forall|k: int| 0 <= k < keys@.len() ==> #[trigger] keys@[k]@ == key_of(text_of(out@[k])),
        decreases found@.len() - i,
    {
        let item = &found[i];
        let path = normalize_path_case(item.path.as_str());
        let key = to_ascii_lower(path.as_str());
        let ghost t = listed(found@[i as int]);
        assert(key@ == key_of(t));
        let mut seen = false;
        let mut k: usize = 0;
        while k < keys.len()
            invariant
                k <= keys@.len(),
                keys@.len() == out@.len(),
                texts_of(out@).len() == out@.len(),
                forall|m: int| 0 <= m < keys@.len() ==> #[trigger] keys@[m]@ == key_of(text_of(out@[m])),
                seen == exists|m: int| 0 <= m < k && key_of(text_of(#[trigger] out@[m])) == key@,
            decreases keys@.len() - k,
        {
            if same_text(keys[k].as_str(), key.as_str()) {
                seen = true;
            }
            k = k + 1;
        }
        assert(seen == has_key(texts_of(out@), key_of(t))) by {
            if seen {
                let m = choose|m: int| 0 <= m < keys@.len() && key_of(text_of(#[trigger] out@[m])) == key@;
                assert(texts_of(out@)[m] == text_of(out@[m]));
            }
            if has_key(texts_of(out@), key_of(t)) {
                let m = choose|m: int|
                    0 <= m < texts_of(out@).len() && key_of(#[trigger] texts_of(out@)[m]) == key_of(t);
                assert(texts_of(out@)[m] == text_of(out@[m]));
            }
        }
        if !seen {
            let entry = ProjectItem {
                name: item.name.clone(),
                path,
                source: item.source.clone(),
            };
            let ghost before = out@;
            out.push(entry);
            keys.push(key);
            assert(texts_of(out@) =~= texts_of(before).push(t));
        }
        i = i + 1;
    }
    out
}

/// Where `name` goes among `sorted`: after every project whose name does not
/// come after it.
fn insert_position(sorted: &Vec<ProjectItem>, name: &str) -> (pos: usize)
    ensures
        pos <= sorted@.len(),
        forall|k: int| 0 <= k < pos ==> !text_lt(name@, #[trigger] sorted@[k].name@),
        pos < sorted@.len() ==> text_lt(name@, sorted@[pos as int].name@),
{
    let mut j: usize = 0;
    while j < sorted.len()
        invariant
            j <= sorted@.len(),
            forall|k: int| 0 <= k < j ==> !text_lt(name@, #[trigger] sorted@[k].name@),
        decreases sorted@.len() - j,
    {
        if text_less(name, sorted[j].name.as_str()) {
            return j;
        }
        j = j + 1;
    }
    j
}

/// The projects in the order of their names; those with equal names keep
/// their order.
pub fn sort_by_name(items: Vec<ProjectItem>) -> (r: Vec<ProjectItem>)
    ensures
        texts_of(r@) == sorted_stably(texts_of(items@)),
        sorted_by_name(texts_of(r@)),
        texts_of(r@).to_multiset() == texts_of(items@).to_multiset(),
{
    let mut sorted: Vec<ProjectItem> = Vec::new();
    let mut rest = items;
    let ghost all = rest@;
    let ghost mut done: int = 0;
    assert(texts_of(all).take(0) =~= Seq::<ProjectText>::empty());
    assert(rest@ =~= all.skip(0));
    while rest.len() > 0
        invariant
            0 <= done <= all.len(),
            rest@ == all.skip(done),
            texts_of(sorted@) == sorted_stably(texts_of(all).take(done)),
            sorted_by_name(texts_of(sorted@)),
            texts_of(sorted@).to_multiset().add(texts_of(rest@).to_multiset())
                == texts_of(all).to_multiset(),
        decreases rest@.len(),
    {
        let ghost rest_before = rest@;
        let item = rest.remove(0);
        assert(rest_before =~= seq![item].add(rest@));
        assert(texts_of(rest_before) =~= seq![text_of(item)].add(texts_of(rest@)));
        proof {
            lemma_multiset_commutative(seq![text_of(item)], texts_of(rest@));
        }
        let pos = insert_position(&sorted, item.name.as_str());
        let ghost before = sorted@;
        let ghost t = text_of(item);
        sorted.insert(pos, item);
        assert(texts_of(sorted@) =~= texts_of(before).insert(pos as int, t));
        proof {
            assert(t == texts_of(all)[done]);
            assert(texts_of(all).take(done + 1).drop_last() =~= texts_of(all).take(done));
            assert forall|k: int| 0 <= k < pos implies !text_lt(t.0, #[trigger] texts_of(before)[k].0) by {
                assert(texts_of(before)[k] == text_of(before[k]));
            }
            if pos < before.len() {
                assert(texts_of(before)[pos as int] == text_of(before[pos as int]));
            }
            insert_at_first_later(texts_of(before), t, pos as int);
            assert(rest@ =~= all.skip(done + 1));
            done = done + 1;
        }
        proof {
            to_multiset_insert(texts_of(before), pos as int, t);
            let s = texts_of(sorted@);
            assert forall|a: int, b: int| 0 <= a < b < s.len() implies !text_lt(
                #[trigger] s[b].0,
                #[trigger] s[a].0,
            ) by {
                if a < pos && b == pos {
                    assert(s[a] == texts_of(before)[a]);
                } else if a == pos && b > pos {
                    let tb = texts_of(before);
                    assert(s[b] == tb[b - 1]);
                    assert(tb[pos as int] == text_of(before[pos as int]));
                    if b - 1 > pos {
                        assert(!text_lt(tb[b - 1].0, tb[pos as int].0));
                    }
                    if text_lt(s[b].0, t.0) {
                        text_lt_transitive(s[b].0, t.0, tb[pos as int].0);
                        text_lt_irreflexive(tb[pos as int].0);
                    }
                } else if a < pos && b > pos {
                    assert(s[a] == texts_of(before)[a]);
                    assert(s[b] == texts_of(before)[b - 1]);
                } else if a > pos {
                    assert(s[a] == texts_of(before)[a - 1]);
                    assert(s[b] == texts_of(before)[b - 1]);
                } else {
                    assert(s[a] == texts_of(before)[a]);
                    assert(s[b] == texts_of(before)[b]);
                }
            }
        }
    }
    assert(texts_of(rest@) =~= Seq::<ProjectText>::empty());
    assert(texts_of(all).take(done) =~= texts_of(all));
    sorted
}

/// The projects to offer: the found ones, each listed once, in the order of
/// their names; those with equal names in the order in which they were found.
pub fn collect_projects(found: Vec<ProjectItem>) -> (r: Vec<ProjectItem>)
    ensures
        texts_of(r@) == sorted_stably(first_of_each(found@, found@.len())),
        sorted_by_name(texts_of(r@)),
        texts_of(r@).to_multiset() == first_of_each(found@, found@.len()).to_multiset(),
{
    let distinct = distinct_projects(found);
    sort_by_name(distinct)
}

} // verus!
