use vstd::prelude::*;

verus! {

/// The position of the last `/` of a path, or -1 where it has none.
pub open spec fn slash_pos(p: Seq<char>) -> int
    decreases p.len(),
{
    if p.len() == 0 {
        -1
    } else if p.last() == '/' {
        p.len() - 1
    } else {
        slash_pos(p.drop_last())
    }
}

/// The directory part of a path, up to and including its last `/`.
pub open spec fn dir_prefix(p: Seq<char>) -> Seq<char> {
    p.subrange(0, slash_pos(p) + 1)
}

/// The last component of a path: what follows its last `/`.
pub open spec fn name_of(p: Seq<char>) -> Seq<char> {
    p.subrange(slash_pos(p) + 1, p.len() as int)
}

/// `name` inside directory `dir`, with one `/` between them.
pub open spec fn join_spec(dir: Seq<char>, name: Seq<char>) -> Seq<char> {
    if dir.len() > 0 && dir.last() == '/' {
        dir + name
    } else {
        dir + seq!['/'] + name
    }
}

/// The suffix of an encrypted file's name.
pub open spec fn enc_suffix() -> Seq<char> {
    seq!['.', 'e', 'n', 'c']
}

/// The length of the directory part of a path.
pub fn prefix_len(p: &Vec<char>) -> (n: usize)
    ensures
        n == slash_pos(p@) + 1,
        n <= p@.len(),
{
    let mut i: usize = p.len();
    assert(p@.subrange(0, p@.len() as int) =~= p@);
    while i > 0 && p[i - 1] != '/'
        invariant
            i <= p@.len(),
            slash_pos(p@.subrange(0, i as int)) == slash_pos(p@),
        decreases i,
    {
        assert(p@.subrange(0, i as int).drop_last() =~= p@.subrange(0, i - 1));
        i -= 1;
    }
    if i > 0 {
        assert(p@.subrange(0, i as int).last() == '/');
    } else {
        assert(p@.subrange(0, 0) =~= Seq::<char>::empty());
    }
    i
}

/// The characters of `p` from `from` up to `to`.
pub fn slice_chars(p: &Vec<char>, from: usize, to: usize) -> (r: Vec<char>)
    requires
        from <= to <= p@.len(),
    ensures
        r@ == p@.subrange(from as int, to as int),
{
    let mut r: Vec<char> = Vec::new();
    let mut i: usize = from;
    while i < to
        invariant
            from <= i <= to <= p@.len(),
            r@ == p@.subrange(from as int, i as int),
        decreases to - i,
    {
        r.push(p[i]);
        i += 1;
        assert(r@ =~= p@.subrange(from as int, i as int));
    }
    r
}

/// Whether two character sequences are equal.
pub fn same_chars(a: &Vec<char>, b: &Vec<char>) -> (r: bool)
    ensures
        r == (a@ == b@),
{
    if a.len() != b.len() {
        return false;
    }
    let mut i: usize = 0;
    while i < a.len()
        invariant
            i <= a@.len(),
            a@.len() == b@.len(),
            a@.subrange(0, i as int) == b@.subrange(0, i as int),
        decreases a@.len() - i,
    {
        if a[i] != b[i] {
            assert(a@[i as int] != b@[i as int]);
            return false;
        }
        assert(a@.subrange(0, i + 1) =~= a@.subrange(0, i as int).push(a@[i as int]));
        assert(b@.subrange(0, i + 1) =~= b@.subrange(0, i as int).push(b@[i as int]));
        i += 1;
    }
    assert(a@ =~= a@.subrange(0, a@.len() as int));
    assert(b@ =~= b@.subrange(0, b@.len() as int));
    true
}

/// The last component of a path.
pub fn file_name(p: &Vec<char>) -> (r: Vec<char>)
    ensures
        r@ == name_of(p@),
{
    let n = prefix_len(p);
    slice_chars(p, n, p.len())
}

/// `name` in the directory that holds `p`.
pub fn sibling(p: &Vec<char>, name: &Vec<char>) -> (r: Vec<char>)
    ensures
        r@ == dir_prefix(p@) + name@,
{
    let n = prefix_len(p);
    let mut r = slice_chars(p, 0, n);
    let mut tail = crate::listing::copy_chars(name);
    r.append(&mut tail);
    r
}

/// `name` inside directory `dir`.
pub fn join(dir: &Vec<char>, name: &Vec<char>) -> (r: Vec<char>)
    ensures
        r@ == join_spec(dir@, name@),
{
    let mut r = crate::listing::copy_chars(dir);
    if !(dir.len() > 0 && dir[dir.len() - 1] == '/') {
        r.push('/');
    }
    let mut tail = crate::listing::copy_chars(name);
    r.append(&mut tail);
    r
}

/// A name with the encrypted-file suffix appended.
pub fn with_enc_suffix(name: &Vec<char>) -> (r: Vec<char>)
    ensures
        r@ == name@ + enc_suffix(),
{
    let mut r = crate::listing::copy_chars(name);
    r.push('.');
    r.push('e');
    r.push('n');
    r.push('c');
    assert(r@ =~= name@ + enc_suffix());
    r
}

/// A name without its encrypted-file suffix, or `None` where it does not end so.
pub fn strip_enc_suffix(name: &Vec<char>) -> (r: Option<Vec<char>>)
    ensures
        r is Some <==> (name@.len() >= 4 && name@.subrange(name@.len() - 4, name@.len() as int)
            == enc_suffix()),
        r matches Some(s) ==> s@ + enc_suffix() == name@,
{
    let n = name.len();
    if n < 4 {
        return None;
    }
    let tail = slice_chars(name, n - 4, n);
    let suffix: Vec<char> = vec!['.', 'e', 'n', 'c'];
    assert(suffix@ =~= enc_suffix());
    if same_chars(&tail, &suffix) {
        let s = slice_chars(name, 0, n - 4);
        assert(s@ + enc_suffix() =~= name@);
        Some(s)
    } else {
        None
    }
}

} // verus!
