//! Pure text helpers: path normalisation and column padding.

use vstd::prelude::*;

verus! {

/// Every backslash of `s` turned into a forward slash.
pub open spec fn forward_slashes(s: Seq<char>) -> Seq<char> {
    s.map_values(|c: char| if c == '\\' { '/' } else { c })
}

/// `k` is the position of the first `:` in `s`.
pub open spec fn is_first_colon(s: Seq<char>, k: int) -> bool {
    &&& 0 <= k < s.len()
    &&& s[k] == ':'
    &&& forall|j: int| 0 <= j < k ==> s[j] != ':'
}

/// `s` with everything up to and including its first `:` removed (a drive
/// prefix such as `C:`); `s` itself when it holds no `:`.
pub open spec fn without_drive(s: Seq<char>) -> Seq<char> {
    if exists|k: int| is_first_colon(s, k) {
        let k = choose|k: int| is_first_colon(s, k);
        s.subrange(k + 1, s.len() as int)
    } else {
        s
    }
}

/// A working directory as it appears in generated text.
pub open spec fn normalized_dir(s: Seq<char>) -> Seq<char> {
    forward_slashes(without_drive(s))
}

/// `n` spaces.
pub open spec fn spaces(n: nat) -> Seq<char> {
    Seq::new(n, |i: int| ' ')
}

/// `s` padded on the right with spaces to at least `width` characters.
pub open spec fn padded(s: Seq<char>, width: nat) -> Seq<char> {
    if s.len() < width {
        s + spaces((width - s.len()) as nat)
    } else {
        s
    }
}

fn first_colon(s: &str) -> (r: Option<usize>)
    ensures
        match r {
            Some(k) => is_first_colon(s@, k as int),
            None => forall|j: int| 0 <= j < s@.len() ==> s@[j] != ':',
        },
{
    let n = s.unicode_len();
    let mut i: usize = 0;
    while i < n
        invariant
            n == s@.len(),
            i <= n,
            forall|j: int| 0 <= j < i ==> s@[j] != ':',
        decreases n - i,
    {
        if s.get_char(i) == ':' {
            return Some(i);
        }
        i = i + 1;
    }
    None
}

/// Removes a drive prefix (up to and including the first `:`) and turns
/// backslashes into forward slashes.
pub fn normalize_dir(path: &str) -> (r: String)
    ensures
        r@ == normalized_dir(path@),
{
    let n = path.unicode_len();
    let found = first_colon(path);
    let start: usize = match found {
        Some(k) => k + 1,
        None => 0,
    };
    proof {
        match found {
            Some(k) => {
                let c = choose|c: int| is_first_colon(path@, c);
                assert(is_first_colon(path@, k as int));
                if c < k {
                    assert(path@[c] != ':');
                } else if c > k {
                    assert(path@[k as int] != ':');
                }
                assert(c == k);
            },
            None => {
                assert(!exists|k: int| is_first_colon(path@, k));
            },
        }
    }
    let rest = path.substring_char(start, n);
    assert(rest@ == without_drive(path@));
    let m = rest.unicode_len();
    let mut out = String::new();
    let mut i: usize = 0;
    while i < m
        invariant
            m == rest@.len(),
            i <= m,
            out@ == forward_slashes(rest@.subrange(0, i as int)),
        decreases m - i,
    {
        let c = rest.get_char(i);
        let piece = if c == '\\' {
            "/"
        } else {
            rest.substring_char(i, i + 1)
        };
        proof {
            reveal_strlit("/");
        }
        out.append(piece);
        assert(forward_slashes(rest@.subrange(0, i + 1)) =~= forward_slashes(
            rest@.subrange(0, i as int),
        ).push(if c == '\\' { '/' } else { c }));
        assert(piece@ =~= seq![if c == '\\' { '/' } else { c }]);
        i = i + 1;
    }
    assert(rest@.subrange(0, m as int) =~= rest@);
    out
}

/// Pads `s` on the right with spaces to at least `width` characters.
pub fn pad_right(s: &str, width: usize) -> (r: String)
    ensures
        r@ == padded(s@, width as nat),
{
    let n = s.unicode_len();
    let mut out = String::from_str(s);
    let mut k: usize = n;
    while k < width
        invariant
            n == s@.len(),
            k >= n,
            n < width ==> k <= width,
            n >= width ==> k == n,
            out@ == s@ + spaces((k - n) as nat),
        decreases width - k,
    {
        proof {
            reveal_strlit(" ");
        }
        out.append(" ");
        assert(s@ + spaces((k + 1 - n) as nat) =~= s@ + spaces((k - n) as nat) + " "@);
        k = k + 1;
    }
    assert(spaces(0) =~= Seq::<char>::empty());
    assert(s@ + spaces(0) =~= s@);
    out
}

} // verus!
