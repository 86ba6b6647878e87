//! Profile files: the file a profile is saved to, which directory entries
//! count as profiles, and the order they are offered in.

use vstd::prelude::*;
use crate::text::{sanitize_name, sanitized};

verus! {

/// The extension of profile files, with its dot.
pub open spec fn json_suffix() -> Seq<char> {
    seq!['.', 'j', 's', 'o', 'n']
}

/// A file name whose extension, as `Path::extension` reads it, is `json`:
/// it ends in `.json` and something comes before that final dot.
pub open spec fn is_json_name(name: Seq<char>) -> bool {
    name.len() > 5 && name.skip(name.len() - 5) == json_suffix()
}

/// The file name a profile called `name` is saved under.
pub open spec fn profile_file_name_of(name: Seq<char>) -> Seq<char> {
    sanitized(name) + json_suffix()
}

/// The file name a profile called `name` is saved under: the sanitized
/// name followed by `.json`.
pub fn profile_file_name(name: &str) -> (file: String)
    ensures
        file@ == profile_file_name_of(name@),
{
    let mut file = sanitize_name(name);
    file.append(".json");
    proof {
        reveal_strlit(".json");
        assert(".json"@ =~= json_suffix());
    }
    file
}

/// Whether a directory entry called `name` is a profile file.
pub fn has_json_extension(name: &str) -> (b: bool)
    ensures
        b == is_json_name(name@),
{
    let n = name.unicode_len();
    if n <= 5 {
        return false;
    }
    let ok = name.get_char(n - 5) == '.' && name.get_char(n - 4) == 'j' && name.get_char(n - 3) == 's'
        && name.get_char(n - 2) == 'o' && name.get_char(n - 1) == 'n';
    proof {
        let tail = name@.skip(n - 5);
        if ok {
            assert(tail =~= json_suffix());
        } else {
            assert(tail[0] != '.' || tail[1] != 'j' || tail[2] != 's' || tail[3] != 'o' || tail[4] != 'n');
            assert(tail != json_suffix());
        }
    }
    ok
}

/// The name of a profile file without its `.json` extension, as shown in
/// the list of profiles.
pub fn profile_stem(file: &str) -> (stem: &str)
    requires
        is_json_name(file@),
    ensures
        stem@ == file@.take(file@.len() - 5),
        file@ == stem@ + json_suffix(),
{
    let n = file.unicode_len();
    let stem = file.substring_char(0, n - 5);
    assert(file@ =~= stem@ + file@.skip(n - 5));
    stem
}

/// A saved profile turns up in the list of profiles exactly when its name
/// is not empty: the file of an empty name is `.json`, which has no
/// extension.
pub proof fn lemma_saved_profile_listed(name: Seq<char>)
    ensures
        is_json_name(profile_file_name_of(name)) <==> name.len() > 0,
{
    let f = profile_file_name_of(name);
    assert(f.skip(f.len() - 5) =~= json_suffix());
}

/// Names in the order `Path` gives entries of one directory: by their UTF-8
/// bytes, which is the order of their characters' code points, with a name
/// coming before every longer name it begins.
pub open spec fn name_le(a: Seq<char>, b: Seq<char>) -> bool
    decreases a.len(),
{
    if a.len() == 0 {
        true
    } else if b.len() == 0 {
        false
    } else if a[0] != b[0] {
        (a[0] as int) < (b[0] as int)
    } else {
        name_le(a.drop_first(), b.drop_first())
    }
}

/// Directory order compares names from their first character: a name comes
/// before every name it begins, and otherwise the first character at which
/// two names differ decides, by code point.
pub proof fn lemma_name_order(a: Seq<char>, b: Seq<char>, k: int)
    requires
        0 <= k <= a.len(),
        k <= b.len(),
        a.take(k) == b.take(k),
    ensures
        k == a.len() ==> name_le(a, b),
        k == b.len() && k < a.len() ==> !name_le(a, b),
        k < a.len() && k < b.len() && a[k] != b[k] ==> (name_le(a, b) <==> (a[k] as int) < (
        b[k] as int)),
    decreases k,
{
    if k > 0 {
        assert(a[0] == a.take(k)[0]);
        assert(b[0] == b.take(k)[0]);
        assert(a.drop_first().take(k - 1) =~= a.take(k).drop_first());
        assert(b.drop_first().take(k - 1) =~= b.take(k).drop_first());
        lemma_name_order(a.drop_first(), b.drop_first(), k - 1);
        if k < a.len() {
            assert(a.drop_first()[k - 1] == a[k]);
        }
        if k < b.len() {
            assert(b.drop_first()[k - 1] == b[k]);
        }
    }
}

/// The names in `s` are in order.
pub open spec fn names_sorted(s: Seq<Seq<char>>) -> bool {
    forall|i: int, j: int| 0 <= i < j < s.len() ==> name_le(#[trigger] s[i], #[trigger] s[j])
}

/// The text of each string.
pub open spec fn texts(v: Seq<String>) -> Seq<Seq<char>> {
    v.map_values(|s: String| s@)
}

proof fn lemma_name_le_total(a: Seq<char>, b: Seq<char>)
    ensures
        name_le(a, b) || name_le(b, a),
    decreases a.len(),
{
    if a.len() > 0 && b.len() > 0 {
        if a[0] == b[0] {
            lemma_name_le_total(a.drop_first(), b.drop_first());
        } else {
            assert((a[0] as int) != (b[0] as int));
        }
    }
}

proof fn lemma_name_le_transitive(a: Seq<char>, b: Seq<char>, c: Seq<char>)
    requires
        name_le(a, b),
        name_le(b, c),
    ensures
        name_le(a, c),
    decreases a.len(),
{
    if a.len() > 0 && b.len() > 0 && c.len() > 0 && a[0] == b[0] && b[0] == c[0] {
        lemma_name_le_transitive(a.drop_first(), b.drop_first(), c.drop_first());
    }
}

/// Compares two names in directory order.
pub fn name_le_exec(a: &str, b: &str) -> (le: bool)
    ensures
        le == name_le(a@, b@),
{
    let na = a.unicode_len();
    let nb = b.unicode_len();
    let mut i: usize = 0;
    assert(a@.skip(0) =~= a@);
    assert(b@.skip(0) =~= b@);
    while i < na && i < nb
        invariant
            na == a@.len(),
            nb == b@.len(),
            i <= na,
            i <= nb,
            name_le(a@, b@) == name_le(a@.skip(i as int), b@.skip(i as int)),
        decreases na - i,
    {
        let ca = a.get_char(i);
        let cb = b.get_char(i);
        assert(a@.skip(i as int)[0] == ca);
        assert(b@.skip(i as int)[0] == cb);
        if ca != cb {
            return (ca as u32) < (cb as u32);
        }
        assert(a@.skip(i as int).drop_first() =~= a@.skip(i + 1));
        assert(b@.skip(i as int).drop_first() =~= b@.skip(i + 1));
        i = i + 1;
    }
    i == na
}

proof fn lemma_insert_sorted(l: Seq<Seq<char>>, p: int, x: Seq<char>)
    requires
        names_sorted(l),
        0 <= p <= l.len(),
        forall|k: int| 0 <= k < p ==> name_le(#[trigger] l[k], x),
        p < l.len() ==> !name_le(l[p], x),
    ensures
        names_sorted(l.insert(p, x)),
{
    let n = l.insert(p, x);
    if p < l.len() {
        lemma_name_le_total(l[p], x);
    }
    assert forall|i: int, j: int| 0 <= i < j < n.len() implies name_le(#[trigger] n[i], #[trigger] n[j]) by {
        if j < p {
        } else if j == p {
            assert(n[i] == l[i]);
        } else if i < p {
            assert(n[j] == l[j - 1]);
            assert(name_le(l[i], l[j - 1]));
        } else if i == p {
            assert(n[j] == l[j - 1]);
            if j - 1 > p {
                assert(name_le(l[p], l[j - 1]));
                lemma_name_le_transitive(x, l[p], l[j - 1]);
            }
        } else {
            assert(n[i] == l[i - 1]);
            assert(n[j] == l[j - 1]);
        }
    }
}

/// The profile files among the entries of a directory, in the order the
/// profile list shows them: entries without the `json` extension are left
/// out, the rest sorted by name.
pub fn profile_names_in_order(names: &Vec<String>) -> (listed: Vec<String>)
    ensures
        names_sorted(texts(listed@)),
        texts(listed@).to_multiset() == texts(names@).filter(|s: Seq<char>| is_json_name(s)).to_multiset(),
{
    let ghost pred = |s: Seq<char>| is_json_name(s);
    let mut listed: Vec<String> = Vec::new();
    let mut i: usize = 0;
    assert(texts(names@.take(0)).filter(pred) =~= Seq::<Seq<char>>::empty()) by {
        reveal(Seq::filter);
    }
    assert(texts(listed@) =~= Seq::<Seq<char>>::empty());
    while i < names.len()
        invariant
            i <= names.len(),
            names_sorted(texts(listed@)),
            texts(listed@).to_multiset() == texts(names@.take(i as int)).filter(pred).to_multiset(),
            pred == (|s: Seq<char>| is_json_name(s)),
        decreases names.len() - i,
    {
        let name = &names[i];
        let ghost before = texts(names@.take(i as int));
        assert(texts(names@.take(i + 1)) =~= before.push(name@));
        assert(before.push(name@).drop_last() =~= before);
        assert(before.push(name@).filter(pred) == if pred(name@) {
            before.filter(pred).push(name@)
        } else {
            before.filter(pred)
        }) by {
            reveal(Seq::filter);
        }
        if has_json_extension(name.as_str()) {
            let mut p: usize = 0;
            let mut found = false;
            while !found && p < listed.len()
                invariant
                    p <= listed.len(),
                    forall|k: int| 0 <= k < p ==> name_le(#[trigger] texts(listed@)[k], name@),
                    found ==> p < listed.len() && !name_le(texts(listed@)[p as int], name@),
                decreases listed.len() - p + (if found { 0int } else { 1int }),
            {
                if name_le_exec(listed[p].as_str(), name.as_str()) {
                    p = p + 1;
                } else {
                    found = true;
                }
            }
            let ghost old_texts = texts(listed@);
            proof {
                lemma_insert_sorted(old_texts, p as int, name@);
            }
            listed.insert(p, name.clone());
            assert(texts(listed@) =~= old_texts.insert(p as int, name@));
            proof {
                vstd::seq_lib::to_multiset_insert(old_texts, p as int, name@);
                vstd::seq_lib::to_multiset_build(before.filter(pred), name@);
            }
        }
        i = i + 1;
    }
    assert(names@.take(names.len() as int) =~= names@);
    listed
}

} // verus!
