use vstd::prelude::*;

verus! {

/// The bit of a POSIX mode that the permission character at position `i`
/// (0 to 8, owner read first) stands for.
pub open spec fn mask_of(i: nat) -> u32
    decreases i,
{
    if i == 0 {
        256
    } else {
        mask_of((i - 1) as nat) / 2
    }
}

/// The letter that a set bit shows at position `i`: `r`, `w` or `x`.
pub open spec fn letter_of(i: int) -> char {
    if i % 3 == 0 {
        'r'
    } else if i % 3 == 1 {
        'w'
    } else {
        'x'
    }
}

/// The permission character at position `i` of a mode.
pub open spec fn perm_char(mode: u32, i: int) -> char {
    if mode & mask_of(i as nat) != 0 {
        letter_of(i)
    } else {
        '-'
    }
}

/// The nine permission characters of a mode, owner, group, other.
pub open spec fn perm_string(mode: u32) -> Seq<char> {
    Seq::new(9, |i: int| perm_char(mode, i))
}

/// The type character of a badge: `d` for a directory, `l` for a symbolic link,
/// `-` for anything else.
pub open spec fn type_char(is_dir: bool, is_symlink: bool) -> char {
    if is_dir {
        'd'
    } else if is_symlink {
        'l'
    } else {
        '-'
    }
}

/// The nine characters `rwxrwxrwx` of a mode, each one `-` where its bit is clear.
pub fn format_permissions(mode: u32) -> (r: Vec<char>)
    ensures
        r@ == perm_string(mode),
{
    let mut r: Vec<char> = Vec::new();
    let mut mask: u32 = 256;
    let mut i: usize = 0;
    while i < 9
        invariant
            i <= 9,
            mask == mask_of(i as nat),
            r@ =~= perm_string(mode).subrange(0, i as int),
        decreases 9 - i,
    {
        let c = if mode & mask != 0 {
            if i % 3 == 0 {
                'r'
            } else if i % 3 == 1 {
                'w'
            } else {
                'x'
            }
        } else {
            '-'
        };
        r.push(c);
        mask = mask / 2;
        i += 1;
        assert(r@ =~= perm_string(mode).subrange(0, i as int));
    }
    r
}

/// The ten-character badge of an entry: its type character, then its
/// permission characters.
pub fn file_permission(is_dir: bool, is_symlink: bool, mode: u32) -> (r: Vec<char>)
    ensures
        r@ == seq![type_char(is_dir, is_symlink)] + perm_string(mode),
        r@.len() == 10,
{
    let t = if is_dir {
        'd'
    } else if is_symlink {
        'l'
    } else {
        '-'
    };
    let mut r: Vec<char> = vec![t];
    let mut p = format_permissions(mode);
    r.append(&mut p);
    assert(r@ =~= seq![type_char(is_dir, is_symlink)] + perm_string(mode));
    r
}

} // verus!
