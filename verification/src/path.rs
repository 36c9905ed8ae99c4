//! Paths as `/`-separated text: joining, file names and components.

use vstd::prelude::*;

use crate::text::{char_is_ascii_alpha, chars_eq, chars_of, is_ascii_alpha, split_chars, split_on, string_of};

verus! {

/// A path that names its place from the root, on Unix (`/...`) or on
/// Windows (a drive letter, `:` and a separator).
pub open spec fn is_absolute(s: Seq<char>) -> bool {
    (s.len() > 0 && s[0] == '/') || is_drive_path(s)
}

/// `X:\...` or `X:/...`.
pub open spec fn is_drive_path(s: Seq<char>) -> bool {
    s.len() >= 3 && is_ascii_alpha(s[0]) && s[1] == ':' && (s[2] == '/' || s[2] == '\\')
}

/// Whether the path written by these characters is absolute.
pub fn chars_absolute(v: &[char]) -> (r: bool)
    ensures
        r == is_absolute(v@),
{
    if v.len() > 0 && v[0] == '/' {
        return true;
    }
    v.len() >= 3 && char_is_ascii_alpha(v[0]) && v[1] == ':' && (v[2] == '/' || v[2] == '\\')
}

/// `base.join(rel)`: an absolute `rel` replaces `base`; otherwise a separator
/// is inserted unless `base` is empty or already ends with one.
pub open spec fn join_spec(base: Seq<char>, rel: Seq<char>) -> Seq<char> {
    if is_absolute(rel) {
        rel
    } else if base.len() == 0 {
        rel
    } else if base.last() == '/' {
        base + rel
    } else {
        base + seq!['/'] + rel
    }
}

pub fn path_is_absolute(s: &str) -> (r: bool)
    ensures
        r == is_absolute(s@),
{
    let v = chars_of(s);
    chars_absolute(v.as_slice())
}

/// `Path::join` on `/`-separated paths.
pub fn join(base: &str, rel: &str) -> (r: String)
    ensures
        r@ == join_spec(base@, rel@),
{
    let vb = chars_of(base);
    let vr = chars_of(rel);
    if chars_absolute(vr.as_slice()) {
        return rel.to_owned();
    }
    if vb.len() == 0 {
        return rel.to_owned();
    }
    let mut r = base.to_owned();
    if vb[vb.len() - 1] != '/' {
        r.append("/");
        assert(r@ == base@ + seq!['/']) by {
            reveal_strlit("/");
        }
    }
    r.append(rel);
    r
}

/// A component that names something: neither empty (from a repeated or
/// trailing separator) nor `.`.
pub open spec fn is_named_part(seg: Seq<char>) -> bool {
    seg.len() > 0 && seg != seq!['.']
}

pub open spec fn keep_named(segs: Seq<Seq<char>>) -> Seq<Seq<char>>
    decreases segs.len(),
{
    if segs.len() == 0 {
        segs
    } else if is_named_part(segs.last()) {
        keep_named(segs.drop_last()).push(segs.last())
    } else {
        keep_named(segs.drop_last())
    }
}

/// The components of a path, without the root, empty pieces and `.`.
pub open spec fn path_parts(s: Seq<char>) -> Seq<Seq<char>> {
    keep_named(split_on(s, '/'))
}

pub open spec fn is_parent_part(seg: Seq<char>) -> bool {
    seg == seq!['.', '.']
}

/// `Path::file_name`: the last component, unless it is `..` or missing.
pub open spec fn file_name_spec(s: Seq<char>) -> Option<Seq<char>> {
    let p = path_parts(s);
    if p.len() > 0 && !is_parent_part(p.last()) {
        Some(p.last())
    } else {
        None
    }
}

fn is_dot(seg: &[char]) -> (r: bool)
    ensures
        r == (seg@ == seq!['.']),
{
    let dot = ['.'];
    let r = chars_eq(seg, &dot);
    assert(dot@ =~= seq!['.']);
    r
}

pub fn is_parent(seg: &[char]) -> (r: bool)
    ensures
        r == is_parent_part(seg@),
{
    let dots = ['.', '.'];
    let r = chars_eq(seg, &dots);
    assert(dots@ =~= seq!['.', '.']);
    r
}

/// The named components of `s`.
pub fn parts_of(s: &[char]) -> (r: Vec<Vec<char>>)
    ensures
        r@.len() == path_parts(s@).len(),
        forall|i: int| 0 <= i < r@.len() ==> #[trigger] r@[i]@ == path_parts(s@)[i],
{
    let segs = split_chars(s, '/');
    let ghost all = split_on(s@, '/');
    let mut out: Vec<Vec<char>> = Vec::new();
    let mut i: usize = 0;
    while i < segs.len()
        invariant
            i <= segs.len(),
            segs@.len() == all.len(),
            forall|j: int| 0 <= j < segs@.len() ==> #[trigger] segs@[j]@ == all[j],
            out@.len() == keep_named(all.take(i as int)).len(),
            forall|j: int| 0 <= j < out@.len() ==> #[trigger] out@[j]@ == keep_named(
                all.take(i as int),
            )[j],
        decreases segs.len() - i,
    {
        assert(all.take(i + 1).drop_last() =~= all.take(i as int));
        assert(all.take(i + 1).last() == all[i as int]);
        let seg = &segs[i];
        assert(seg@ == all[i as int]);
        if seg.len() > 0 && !is_dot(seg.as_slice()) {
            out.push(seg.clone());
        }
        i += 1;
    }
    assert(all.take(segs.len() as int) =~= all);
    out
}

/// `Path::file_name` on a `/`-separated path.
pub fn file_name(s: &str) -> (r: Option<String>)
    ensures
        match file_name_spec(s@) {
            Some(n) => r matches Some(x) && x@ == n,
            None => r is None,
        },
{
    let v = chars_of(s);
    let parts = parts_of(v.as_slice());
    if parts.len() == 0 {
        return None;
    }
    let last = &parts[parts.len() - 1];
    if is_parent(last.as_slice()) {
        return None;
    }
    Some(string_of(last.as_slice()))
}


/// Pieces joined with `/` between them.
pub open spec fn join_parts(parts: Seq<Seq<char>>) -> Seq<char>
    decreases parts.len(),
{
    if parts.len() == 0 {
        Seq::<char>::empty()
    } else if parts.len() == 1 {
        parts[0]
    } else {
        join_parts(parts.drop_last()) + seq!['/'] + parts.last()
    }
}

/// `Path::strip_prefix` followed by joining the remaining components with
/// `/`; `None` when `path` is not under `base`, is `base` itself, or the
/// rest contains `..`.
pub open spec fn relative_storage_path_spec(path: Seq<char>, base: Seq<char>) -> Option<Seq<char>> {
    let p = path_parts(path);
    let b = path_parts(base);
    if is_absolute(path) == is_absolute(base) && b.len() < p.len() && p.take(b.len() as int) == b
        && forall|i: int| b.len() <= i < p.len() ==> !is_parent_part(#[trigger] p[i]) {
        Some(join_parts(p.skip(b.len() as int)))
    } else {
        None
    }
}

/// The text of each piece.
pub open spec fn part_views(v: Seq<Vec<char>>) -> Seq<Seq<char>> {
    v.map_values(|x: Vec<char>| x@)
}

/// The `/`-joined text of `parts[from..]`.
pub fn join_from(parts: &Vec<Vec<char>>, from: usize) -> (r: Vec<char>)
    requires
        from <= parts@.len(),
    ensures
        r@ == join_parts(part_views(parts@.skip(from as int))),
{
    let ghost views = part_views(parts@.skip(from as int));
    let mut r: Vec<char> = Vec::new();
    let mut i: usize = from;
    while i < parts.len()
        invariant
            from <= i <= parts@.len(),
            views == part_views(parts@.skip(from as int)),
            r@ == join_parts(views.take(i - from)),
        decreases parts.len() - i,
    {
        assert(views.take(i + 1 - from).drop_last() =~= views.take(i - from));
        assert(views[i - from] == parts@[i as int]@);
        if i > from {
            r.push('/');
        }
        let part = &parts[i];
        let mut k: usize = 0;
        let ghost before = r@;
        while k < part.len()
            invariant
                k <= part@.len(),
                r@ == before + part@.take(k as int),
            decreases part.len() - k,
        {
            r.push(part[k]);
            assert(part@.take(k + 1) =~= part@.take(k as int).push(part@[k as int]));
            k += 1;
        }
        assert(part@.take(part@.len() as int) =~= part@);
        proof {
            if i == from {
                assert(views.take(i + 1 - from) =~= seq![part@]);
                assert(r@ =~= part@);
            } else {
                assert(r@ =~= join_parts(views.take(i - from)) + seq!['/'] + part@);
            }
        }
        i += 1;
    }
    assert(views.take(parts.len() - from) =~= views);
    r
}

/// `path` relative to `base`, as `/`-joined components.
pub fn relative_storage_path(path: &str, base: &str) -> (r: Option<String>)
    ensures
        match relative_storage_path_spec(path@, base@) {
            Some(x) => r matches Some(y) && y@ == x,
            None => r is None,
        },
{
    let pv = chars_of(path);
    let bv = chars_of(base);
    let p = parts_of(pv.as_slice());
    let b = parts_of(bv.as_slice());
    let ghost ps = path_parts(path@);
    let ghost bs = path_parts(base@);
    let pabs = chars_absolute(pv.as_slice());
    let babs = chars_absolute(bv.as_slice());
    assert(pabs == is_absolute(path@));
    assert(babs == is_absolute(base@));
    if pabs != babs || b.len() >= p.len() {
        assert(relative_storage_path_spec(path@, base@) is None);
        return None;
    }
    let mut i: usize = 0;
    while i < b.len()
        invariant
            i <= b@.len() < p@.len(),
            p@.len() == ps.len(),
            b@.len() == bs.len(),
            ps == path_parts(path@),
            bs == path_parts(base@),
            is_absolute(path@) == is_absolute(base@),
            forall|j: int| 0 <= j < p@.len() ==> #[trigger] p@[j]@ == ps[j],
            forall|j: int| 0 <= j < b@.len() ==> #[trigger] b@[j]@ == bs[j],
            forall|j: int| 0 <= j < i ==> ps[j] == bs[j],
        decreases b.len() - i,
    {
        if !chars_eq(p[i].as_slice(), b[i].as_slice()) {
            proof {
                assert(ps.take(bs.len() as int)[i as int] == ps[i as int]);
            }
            return None;
        }
        i += 1;
    }
    assert(ps.take(bs.len() as int) =~= bs);
    let mut k: usize = b.len();
    while k < p.len()
        invariant
            b@.len() <= k <= p@.len(),
            p@.len() == ps.len(),
            b@.len() == bs.len(),
            ps == path_parts(path@),
            bs == path_parts(base@),
            is_absolute(path@) == is_absolute(base@),
            forall|j: int| 0 <= j < p@.len() ==> #[trigger] p@[j]@ == ps[j],
            forall|j: int| bs.len() <= j < k ==> !is_parent_part(#[trigger] ps[j]),
        decreases p.len() - k,
    {
        if is_parent(p[k].as_slice()) {
            assert(is_parent_part(ps[k as int]));
            return None;
        }
        k += 1;
    }
    let joined = join_from(&p, b.len());
    assert(part_views(p@.skip(b@.len() as int)) =~= ps.skip(bs.len() as int));
    Some(string_of(joined.as_slice()))
}


/// `Path::exists`: whether something exists at this path on disk.
#[verifier::external_body]
pub(crate) fn path_exists(p: &str) -> (r: bool) {
    std::path::Path::new(p).exists()
}

/// `Path::is_file`: whether a regular file (following links) stands at this
/// path on disk. What the disk holds is not stated.
#[verifier::external_body]
pub(crate) fn path_is_file(p: &str) -> (r: bool) {
    std::path::Path::new(p).is_file()
}


/// Index of the last `c` in `s`.
pub open spec fn last_index_of(s: Seq<char>, c: char) -> Option<int>
    decreases s.len(),
{
    if s.len() == 0 {
        None
    } else if s.last() == c {
        Some(s.len() - 1)
    } else {
        last_index_of(s.drop_last(), c)
    }
}

pub proof fn lemma_last_index_of(s: Seq<char>, c: char)
    ensures
        match last_index_of(s, c) {
            Some(i) => 0 <= i < s.len() && s[i] == c && forall|j: int| i < j < s.len() ==> s[j]
                != c,
            None => forall|j: int| 0 <= j < s.len() ==> s[j] != c,
        },
    decreases s.len(),
{
    if s.len() > 0 && s.last() != c {
        lemma_last_index_of(s.drop_last(), c);
        assert forall|j: int| 0 <= j < s.len() - 1 implies s[j] == s.drop_last()[j] by {}
    }
}

pub fn rfind_char(s: &[char], c: char) -> (r: Option<usize>)
    ensures
        match last_index_of(s@, c) {
            Some(i) => r == Some(i as usize),
            None => r is None,
        },
        r matches Some(i) ==> i < s@.len() && s@[i as int] == c && last_index_of(s@, c) == Some(
            i as int,
        ),
{
    proof {
        lemma_last_index_of(s@, c);
    }
    let mut k: usize = s.len();
    assert(s@.take(s.len() as int) =~= s@);
    while k > 0
        invariant
            k <= s.len(),
            last_index_of(s@, c) == last_index_of(s@.take(k as int), c),
        decreases k,
    {
        if s[k - 1] == c {
            assert(last_index_of(s@.take(k as int), c) == Some(k - 1));
            return Some(k - 1);
        }
        assert(s@.take(k as int).drop_last() =~= s@.take(k - 1));
        k -= 1;
    }
    None
}

/// `Path::extension`: the text after the last `.` of the file name, when
/// that `.` is not its first character.
pub open spec fn extension_spec(s: Seq<char>) -> Option<Seq<char>> {
    match file_name_spec(s) {
        Some(n) => match last_index_of(n, '.') {
            Some(i) => if i > 0 {
                Some(n.skip(i + 1))
            } else {
                None
            },
            None => None,
        },
        None => None,
    }
}

/// `Path::file_stem`: the file name without its extension.
pub open spec fn file_stem_spec(s: Seq<char>) -> Option<Seq<char>> {
    match file_name_spec(s) {
        Some(n) => match last_index_of(n, '.') {
            Some(i) => if i > 0 {
                Some(n.take(i))
            } else {
                Some(n)
            },
            None => Some(n),
        },
        None => None,
    }
}

pub fn extension(s: &str) -> (r: Option<Vec<char>>)
    ensures
        match extension_spec(s@) {
            Some(e) => r matches Some(x) && x@ == e,
            None => r is None,
        },
{
    let name = file_name(s);
    if name.is_none() {
        return None;
    }
    let n = name.unwrap();
    let v = chars_of(n.as_str());
    proof {
        lemma_last_index_of(v@, '.');
    }
    let vs = v.as_slice();
    let found = rfind_char(vs, '.');
    if found.is_none() {
        return None;
    }
    let i = found.unwrap();
    if i == 0 {
        return None;
    }
    let len = vs.len();
    assert(vs@.subrange(i + 1, len as int) =~= vs@.skip(i + 1));
    let out = vstd::slice::slice_to_vec(vstd::slice::slice_subrange(vs, i + 1, len));
    Some(out)
}

pub fn file_stem(s: &str) -> (r: Option<Vec<char>>)
    ensures
        match file_stem_spec(s@) {
            Some(e) => r matches Some(x) && x@ == e,
            None => r is None,
        },
{
    let name = file_name(s);
    if name.is_none() {
        return None;
    }
    let n = name.unwrap();
    let v = chars_of(n.as_str());
    proof {
        lemma_last_index_of(v@, '.');
    }
    let found = rfind_char(v.as_slice(), '.');
    if found.is_none() {
        return Some(v);
    }
    let i = found.unwrap();
    if i == 0 {
        return Some(v);
    }
    let out = vstd::slice::slice_to_vec(vstd::slice::slice_subrange(v.as_slice(), 0, i));
    assert(out@ =~= v@.take(i as int));
    Some(out)
}

} // verus!

verus! {

/// One step of lexical normalisation: `..` takes back the component before
/// it, where there is one that is not itself `..`; anything else is kept.
pub open spec fn step_part(acc: Seq<Seq<char>>, part: Seq<char>) -> Seq<Seq<char>> {
    if is_parent_part(part) && acc.len() > 0 && !is_parent_part(acc.last()) {
        acc.drop_last()
    } else {
        acc.push(part)
    }
}

pub open spec fn fold_parts(parts: Seq<Seq<char>>) -> Seq<Seq<char>>
    decreases parts.len(),
{
    if parts.len() == 0 {
        Seq::empty()
    } else {
        step_part(fold_parts(parts.drop_last()), parts.last())
    }
}

/// The components of a path once `.` and `..` are resolved by its text
/// alone, without asking the disk.
pub open spec fn lexical_parts(s: Seq<char>) -> Seq<Seq<char>> {
    fold_parts(path_parts(s))
}

/// Whether `p`, resolved by its text, lies at or below `root`, resolved the
/// same way.
pub open spec fn lies_within(p: Seq<char>, root: Seq<char>) -> bool {
    let a = lexical_parts(p);
    let b = lexical_parts(root);
    is_absolute(p) == is_absolute(root) && b.len() <= a.len() && a.take(b.len() as int) == b
}

fn lexical_parts_of(s: &str) -> (r: Vec<Vec<char>>)
    ensures
        part_views(r@) == lexical_parts(s@),
{
    let v = chars_of(s);
    let parts = parts_of(v.as_slice());
    let ghost ps = path_parts(s@);
    let mut acc: Vec<Vec<char>> = Vec::new();
    let mut i: usize = 0;
    assert(part_views(acc@) =~= fold_parts(ps.take(0)));
    while i < parts.len()
        invariant
            i <= parts@.len(),
            parts@.len() == ps.len(),
            forall|j: int| 0 <= j < parts@.len() ==> #[trigger] parts@[j]@ == ps[j],
            part_views(acc@) == fold_parts(ps.take(i as int)),
        decreases parts.len() - i,
    {
        assert(ps.take(i + 1).drop_last() =~= ps.take(i as int));
        assert(ps.take(i + 1).last() == ps[i as int]);
        let ghost before = part_views(acc@);
        let part = &parts[i];
        if is_parent(part.as_slice()) && acc.len() > 0 && !is_parent(acc[acc.len() - 1].as_slice()) {
            acc.pop();
            assert(part_views(acc@) =~= before.drop_last());
        } else {
            acc.push(part.clone());
            assert(part_views(acc@) =~= before.push(ps[i as int]));
        }
        i += 1;
    }
    assert(ps.take(parts.len() as int) =~= ps);
    acc
}

/// Whether `p` lies at or below `root`, both resolved by their text alone.
pub fn lies_within_root(p: &str, root: &str) -> (r: bool)
    ensures
        r == lies_within(p@, root@),
{
    let pv = chars_of(p);
    let rv = chars_of(root);
    let pabs = chars_absolute(pv.as_slice());
    let rabs = chars_absolute(rv.as_slice());
    let a = lexical_parts_of(p);
    let b = lexical_parts_of(root);
    let ghost av = part_views(a@);
    let ghost bv = part_views(b@);
    assert(av.len() == a@.len() && bv.len() == b@.len());
    assert(pabs == is_absolute(p@) && rabs == is_absolute(root@));
    if pabs != rabs || b.len() > a.len() {
        return false;
    }
    let mut i: usize = 0;
    while i < b.len()
        invariant
            i <= b@.len() <= a@.len(),
            av == part_views(a@),
            bv == part_views(b@),
            av == lexical_parts(p@),
            bv == lexical_parts(root@),
            forall|j: int| 0 <= j < i ==> av[j] == bv[j],
        decreases b.len() - i,
    {
        if !chars_eq(a[i].as_slice(), b[i].as_slice()) {
            assert(av.take(bv.len() as int)[i as int] != bv[i as int]);
            return false;
        }
        i += 1;
    }
    assert(av.take(bv.len() as int) =~= bv);
    true
}

} // verus!

verus! {

proof fn lemma_split_append_name(base: Seq<char>, n: Seq<char>)
    requires
        forall|i: int| 0 <= i < n.len() ==> n[i] != '/',
    ensures
        split_on(base + seq!['/'] + n, '/') == split_on(base, '/').push(n),
    decreases n.len(),
{
    let s = base + seq!['/'] + n;
    if n.len() == 0 {
        assert(s.drop_last() =~= base);
        assert(s.last() == '/');
        assert(n =~= Seq::<char>::empty());
        assert(split_on(s, '/') == split_on(s.drop_last(), '/').push(Seq::<char>::empty()));
    } else {
        let m = n.drop_last();
        lemma_split_append_name(base, m);
        assert(s.drop_last() =~= base + seq!['/'] + m);
        assert(s.last() == n.last());
        let p = split_on(base, '/').push(m);
        assert(n.last() != '/');
        assert(split_on(s.drop_last(), '/') == p);
        assert(split_on(s, '/') == p.update(p.len() - 1, p.last().push(s.last())));
        assert(p.update(p.len() - 1, p.last().push(n.last())) =~= split_on(base, '/').push(n)) by {
            assert(m.push(n.last()) =~= n);
        }
    }
}

/// The last component of `base/n`, for a plain name `n` (no separator, not
/// `.` or `..`), is `n`.
pub proof fn lemma_file_name_of_child(base: Seq<char>, n: Seq<char>)
    requires
        n.len() > 0,
        forall|i: int| 0 <= i < n.len() ==> n[i] != '/',
        n != seq!['.'],
        n != seq!['.', '.'],
    ensures
        file_name_spec(base + seq!['/'] + n) == Some(n),
{
    lemma_split_append_name(base, n);
    let x = split_on(base, '/');
    assert(x.push(n).drop_last() =~= x);
    assert(path_parts(base + seq!['/'] + n) == keep_named(x).push(n));
}

} // verus!
