//! Unix paths as byte strings: joining, and comparing by components.
use vstd::prelude::*;

verus! {

/// The byte `/`.
pub const SLASH: u8 = 47;

/// The byte `.`.
pub const DOT: u8 = 46;

/// `part` below `base`. An absolute `part` stands for itself.
pub open spec fn joined(base: Seq<u8>, part: Seq<u8>) -> Seq<u8> {
    if part.len() > 0 && part[0] == SLASH {
        part
    } else if base.len() > 0 && base.last() != SLASH {
        base + seq![SLASH] + part
    } else {
        base + part
    }
}

/// How many bytes stand before the first slash.
pub open spec fn head_len(path: Seq<u8>) -> nat
    decreases path.len(),
{
    if path.len() == 0 || path[0] == SLASH {
        0
    } else {
        1 + head_len(path.drop_first())
    }
}

/// What follows the first slash; nothing where there is none.
pub open spec fn after_head(path: Seq<u8>) -> Seq<u8> {
    if head_len(path) < path.len() {
        path.skip(head_len(path) as int + 1)
    } else {
        seq![]
    }
}

/// The names in a path from left to right, without the empty ones that
/// repeated slashes leave and without `.`.
pub open spec fn names(path: Seq<u8>) -> Seq<Seq<u8>>
    decreases path.len(),
{
    if path.len() == 0 {
        seq![]
    } else {
        let head = path.take(head_len(path) as int);
        let rest = names(after_head(path));
        if head.len() == 0 || head == seq![DOT] {
            rest
        } else {
            seq![head] + rest
        }
    }
}

/// The components of a path: its names, after `/` if it is absolute, or after
/// `.` if it is relative and begins so.
pub open spec fn components(path: Seq<u8>) -> Seq<Seq<u8>> {
    if path.len() > 0 && path[0] == SLASH {
        seq![seq![SLASH]] + names(path)
    } else if path.take(head_len(path) as int) == seq![DOT] {
        seq![seq![DOT]] + names(path)
    } else {
        names(path)
    }
}

/// `path` is `dir` or lies below it, component by component.
pub open spec fn lies_under(path: Seq<u8>, dir: Seq<u8>) -> bool {
    components(dir).is_prefix_of(components(path))
}

/// A copy of the bytes.
pub fn copy_bytes(bytes: &[u8]) -> (r: Vec<u8>)
    ensures
        r@ == bytes@,
{
    let mut out: Vec<u8> = Vec::new();
    append(&mut out, bytes);
    assert(out@ == bytes@);
    out
}

/// Appends `more` to `out`.
pub fn append(out: &mut Vec<u8>, more: &[u8])
    ensures
        final(out)@ == old(out)@ + more@,
{
    let ghost start = out@;
    let mut i: usize = 0;
    while i < more.len()
        invariant
            i <= more@.len(),
            out@ == start + more@.take(i as int),
        decreases more@.len() - i,
    {
        out.push(more[i]);
        i = i + 1;
        assert(more@.take(i as int) == more@.take(i - 1).push(more@[i - 1]));
    }
    assert(more@.take(i as int) == more@);
}

/// `part` below `base`.
pub fn join(base: &[u8], part: &[u8]) -> (r: Vec<u8>)
    ensures
        r@ == joined(base@, part@),
{
    if part.len() > 0 && part[0] == SLASH {
        return copy_bytes(part);
    }
    let mut out: Vec<u8> = copy_bytes(base);
    if base.len() > 0 && base[base.len() - 1] != SLASH {
        out.push(SLASH);
        assert(out@ == base@ + seq![SLASH]);
    }
    append(&mut out, part);
    out
}

/// The head ends at `end` if a slash or the end of the path is there and no
/// slash before it.
pub proof fn lemma_head_len(path: Seq<u8>, end: nat)
    requires
        end <= path.len(),
        forall|i: int| 0 <= i < end ==> path[i] != SLASH,
        end < path.len() ==> path[end as int] == SLASH,
    ensures
        head_len(path) == end,
    decreases end,
{
    if end > 0 {
        let rest = path.drop_first();
        assert forall|i: int| 0 <= i < end - 1 implies rest[i] != SLASH by {
            assert(rest[i] == path[i + 1]);
        }
        lemma_head_len(rest, (end - 1) as nat);
    }
}

/// The sequences that the vectors hold.
pub open spec fn byte_views(parts: Seq<Vec<u8>>) -> Seq<Seq<u8>> {
    parts.map_values(|v: Vec<u8>| v@)
}

/// The components of `path`.
pub fn split_components(path: &[u8]) -> (r: Vec<Vec<u8>>)
    ensures
        byte_views(r@) == components(path@),
{
    let mut out: Vec<Vec<u8>> = Vec::new();
    let absolute: bool = path.len() > 0 && path[0] == SLASH;
    let dotted: bool = path.len() > 0 && path[0] == DOT && (path.len() == 1 || path[1] == SLASH);
    if absolute {
        out.push(vec![SLASH]);
        assert(out@[0]@ == seq![SLASH]);
    } else if dotted {
        out.push(vec![DOT]);
        assert(out@[0]@ == seq![DOT]);
    }
    proof {
        if dotted {
            lemma_head_len(path@, 1);
            assert(path@.take(1) == seq![DOT]);
        } else if path@.take(head_len(path@) as int) == seq![DOT] {
            lemma_single_dot(path@);
        }
        assert(path@.skip(0) == path@);
        assert(byte_views(out@) + names(path@) == components(path@));
    }
    let mut pos: usize = 0;
    while pos < path.len()
        invariant
            pos <= path@.len(),
            byte_views(out@) + names(path@.skip(pos as int)) == components(path@),
        decreases path@.len() - pos,
    {
        let ghost tail = path@.skip(pos as int);
        let ghost before = out@;
        let mut end: usize = pos;
        let mut name: Vec<u8> = Vec::new();
        while end < path.len() && path[end] != SLASH
            invariant
                pos <= end <= path@.len(),
                name@ == path@.subrange(pos as int, end as int),
                forall|i: int| pos <= i < end ==> path@[i] != SLASH,
            decreases path@.len() - end,
        {
            name.push(path[end]);
            end = end + 1;
            assert(name@ == path@.subrange(pos as int, end as int));
        }
        proof {
            let len = (end - pos) as nat;
            assert forall|i: int| 0 <= i < len implies tail[i] != SLASH by {
                assert(tail[i] == path@[pos + i]);
            }
            lemma_head_len(tail, len);
            assert(tail.take(len as int) == name@);
            if end < path@.len() {
                assert(after_head(tail) == path@.skip(end + 1));
            } else {
                assert(after_head(tail) == path@.skip(end as int));
            }
        }
        let single_dot: bool = name.len() == 1 && name[0] == DOT;
        proof {
            if single_dot {
                assert(name@ == seq![DOT]);
            }
        }
        if name.len() > 0 && !single_dot {
            let ghost head = name@;
            out.push(name);
            assert(byte_views(out@) == byte_views(before).push(head));
            assert(byte_views(before) + (seq![head] + names(after_head(tail))) == byte_views(out@)
                + names(after_head(tail)));
        }
        pos = if end < path.len() {
            end + 1
        } else {
            end
        };
    }
    assert(path@.skip(pos as int) == Seq::<u8>::empty());
    assert(byte_views(out@) + names(Seq::<u8>::empty()) == byte_views(out@));
    out
}

/// A first name of `.` is a dot followed by a slash or by nothing.
pub proof fn lemma_single_dot(path: Seq<u8>)
    requires
        path.take(head_len(path) as int) == seq![DOT],
    ensures
        path.len() > 0,
        path[0] == DOT,
        path.len() == 1 || path[1] == SLASH,
{
    lemma_head_len_bound(path);
    assert(path.take(head_len(path) as int).len() == 1);
    assert(path[0] == path.take(head_len(path) as int)[0]);
    assert(head_len(path) == 1);
    if path.len() > 1 {
        assert(head_len(path.drop_first()) == 0);
        assert(path.drop_first()[0] == path[1]);
    }
}

/// The head is part of the path.
proof fn lemma_head_len_bound(path: Seq<u8>)
    ensures
        head_len(path) <= path.len(),
    decreases path.len(),
{
    if path.len() > 0 {
        lemma_head_len_bound(path.drop_first());
    }
}

/// A slash between two paths ends a name: the names of both follow each other.
pub proof fn lemma_names_across_slash(base: Seq<u8>, part: Seq<u8>)
    ensures
        names(base + seq![SLASH] + part) == names(base) + names(part),
        base.len() > 0 ==> head_len(base + seq![SLASH] + part) == head_len(base),
        base.len() > 0 ==> (base + seq![SLASH] + part).take(head_len(base) as int) == base.take(
            head_len(base) as int,
        ),
    decreases base.len(),
{
    let path = base + seq![SLASH] + part;
    let k = head_len(base);
    lemma_head_len_bound(base);
    lemma_head_is_slash_free(base);
    assert forall|i: int| 0 <= i < k implies path[i] != SLASH by {
        assert(path[i] == base[i]);
    }
    if k < base.len() {
        assert(path[k as int] == base[k as int]);
    } else {
        assert(path[k as int] == SLASH);
    }
    lemma_head_len(path, k);
    assert(path.take(k as int) == base.take(k as int));
    if base.len() == 0 {
        assert(after_head(path) == part);
        assert(names(base) + names(part) == names(part));
    } else if k < base.len() {
        assert(after_head(path) == after_head(base) + seq![SLASH] + part);
        lemma_names_across_slash(after_head(base), part);
        let head = base.take(k as int);
        assert(seq![head] + (names(after_head(base)) + names(part)) == (seq![head] + names(
            after_head(base),
        )) + names(part));
    } else {
        assert(after_head(path) == part);
        assert(after_head(base) == Seq::<u8>::empty());
        assert(names(Seq::<u8>::empty()) == Seq::<Seq<u8>>::empty());
        let head = base.take(k as int);
        assert(seq![head] + Seq::<Seq<u8>>::empty() == seq![head]);
        assert(Seq::<Seq<u8>>::empty() + names(part) == names(part));
    }
}

/// The head holds no slash, and one follows it or the path ends.
proof fn lemma_head_is_slash_free(path: Seq<u8>)
    ensures
        forall|i: int| 0 <= i < head_len(path) ==> path[i] != SLASH,
        head_len(path) < path.len() ==> path[head_len(path) as int] == SLASH,
    decreases path.len(),
{
    if path.len() > 0 && path[0] != SLASH {
        let rest = path.drop_first();
        lemma_head_is_slash_free(rest);
        lemma_head_len_bound(rest);
        assert forall|i: int| 0 <= i < head_len(path) implies path[i] != SLASH by {
            if i > 0 {
                assert(path[i] == rest[i - 1]);
            }
        }
        if head_len(path) < path.len() {
            assert(path[head_len(path) as int] == rest[head_len(rest) as int]);
        }
    }
}

/// Joining adds the names of a relative path to the components of a directory.
pub proof fn lemma_components_of_joined(base: Seq<u8>, part: Seq<u8>)
    requires
        base.len() > 0,
        part.len() == 0 || part[0] != SLASH,
    ensures
        components(joined(base, part)) == components(base) + names(part),
{
    let path = joined(base, part);
    let stem = if base.last() == SLASH {
        base.drop_last()
    } else {
        base
    };
    assert(path == stem + seq![SLASH] + part);
    lemma_names_across_slash(stem, part);
    lemma_names_across_slash(stem, seq![]);
    assert(names(stem) + names(Seq::<u8>::empty()) == names(stem));
    if base.last() == SLASH {
        assert(base == stem + seq![SLASH] + Seq::<u8>::empty());
    }
    assert(names(path) == names(base) + names(part));
    assert(path[0] == base[0]);
    if stem.len() == 0 {
        assert(base[0] == SLASH);
    } else {
        assert(path.take(head_len(path) as int) == base.take(head_len(base) as int));
    }
    assert(components(path) == components(base) + names(part));
}

/// What is joined to a directory lies under it, unless it is absolute.
pub proof fn law_joined_lies_under(base: Seq<u8>, part: Seq<u8>)
    requires
        part.len() == 0 || part[0] != SLASH,
    ensures
        lies_under(joined(base, part), base),
{
    let path = joined(base, part);
    if base.len() == 0 {
        assert(names(base) == Seq::<Seq<u8>>::empty());
        assert(base.take(head_len(base) as int) == base);
        assert(base != seq![DOT]);
        assert(components(base) == Seq::<Seq<u8>>::empty());
        assert(components(path).subrange(0, 0) == components(base));
    } else {
        lemma_components_of_joined(base, part);
        assert(components(path).subrange(0, components(base).len() as int) == components(base));
    }
}

/// Every path lies under itself, and what lies under a directory below
/// another lies under that one too.
pub proof fn law_lies_under_is_an_order(path: Seq<u8>, dir: Seq<u8>, above: Seq<u8>)
    ensures
        lies_under(path, path),
        lies_under(path, dir) && lies_under(dir, above) ==> lies_under(path, above),
{
    let p = components(path);
    assert(p.subrange(0, p.len() as int) == p);
    if lies_under(path, dir) && lies_under(dir, above) {
        let d = components(dir);
        let a = components(above);
        assert(d == p.subrange(0, d.len() as int));
        assert(a == d.subrange(0, a.len() as int));
        assert(p.subrange(0, a.len() as int) == a);
    }
}

/// Whether the bytes are the same.
pub fn same_bytes(a: &[u8], b: &[u8]) -> (r: bool)
    ensures
        r == (a@ == b@),
{
    if a.len() != b.len() {
        return false;
    }
    let mut i: usize = 0;
    while i < a.len()
        invariant
            i <= a@.len(),
            a@.len() == b@.len(),
            forall|j: int| 0 <= j < i ==> a@[j] == b@[j],
        decreases a@.len() - i,
    {
        if a[i] != b[i] {
            return false;
        }
        i = i + 1;
    }
    assert(a@ == b@);
    true
}

/// Whether two lists of components are the same.
pub fn same_components(a: &Vec<Vec<u8>>, b: &Vec<Vec<u8>>) -> (r: bool)
    ensures
        r == (byte_views(a@) == byte_views(b@)),
{
    let ghost x = byte_views(a@);
    let ghost y = byte_views(b@);
    if a.len() != b.len() {
        assert(x.len() != y.len());
        return false;
    }
    let mut i: usize = 0;
    while i < a.len()
        invariant
            i <= a@.len(),
            a@.len() == b@.len(),
            x == byte_views(a@),
            y == byte_views(b@),
            forall|j: int| 0 <= j < i ==> x[j] == y[j],
        decreases a@.len() - i,
    {
        proof {
            assert(x[i as int] == a@[i as int]@);
            assert(y[i as int] == b@[i as int]@);
        }
        if !same_bytes(a[i].as_slice(), b[i].as_slice()) {
            return false;
        }
        i = i + 1;
    }
    assert(x == y);
    true
}

/// Whether `path` is `dir` or lies below it.
pub fn starts_with(path: &[u8], dir: &[u8]) -> (r: bool)
    ensures
        r == lies_under(path@, dir@),
{
    let whole: Vec<Vec<u8>> = split_components(path);
    let front: Vec<Vec<u8>> = split_components(dir);
    let ghost w = byte_views(whole@);
    let ghost f = byte_views(front@);
    if front.len() > whole.len() {
        return false;
    }
    let mut i: usize = 0;
    while i < front.len()
        invariant
            i <= front@.len() <= whole@.len(),
            w == byte_views(whole@),
            f == byte_views(front@),
            w == components(path@),
            f == components(dir@),
            forall|j: int| 0 <= j < i ==> w[j] == f[j],
        decreases front@.len() - i,
    {
        proof {
            assert(w[i as int] == whole@[i as int]@);
            assert(f[i as int] == front@[i as int]@);
        }
        if !same_bytes(whole[i].as_slice(), front[i].as_slice()) {
            assert(w.subrange(0, f.len() as int)[i as int] != f[i as int]);
            return false;
        }
        i = i + 1;
    }
    assert(w.subrange(0, f.len() as int) == f);
    true
}

} // verus!
