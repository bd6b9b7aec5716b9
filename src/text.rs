use vstd::prelude::*;

verus! {

/// What `str::to_lowercase` makes of a string.
pub uninterp spec fn lower_of(s: Seq<char>) -> Seq<char>;

/// Relies on `str::to_lowercase`: the lowercase form of `s`, which depends on
/// the characters of `s` alone.
#[verifier::external_body]
pub(crate) fn lowercase(s: &str) -> (r: String)
    ensures
        r@ == lower_of(s@),
{
    s.to_lowercase()
}

/// Whether `needle` occurs in `hay` at position `i`.
pub open spec fn occurs_at(hay: Seq<char>, needle: Seq<char>, i: int) -> bool {
    0 <= i && i + needle.len() <= hay.len() && hay.subrange(i, i + needle.len()) == needle
}

/// Whether `needle` occurs anywhere in `hay`.
pub open spec fn contains_seq(hay: Seq<char>, needle: Seq<char>) -> bool {
    exists|i: int| occurs_at(hay, needle, i)
}

/// The signal that marks a line as an error line, in lowercase.
pub open spec fn error_word() -> Seq<char> {
    seq!['e', 'r', 'r', 'o', 'r']
}

/// Whether an already lowercased line holds the error signal.
pub open spec fn holds_error_word(lowered: Seq<char>) -> bool {
    contains_seq(lowered, error_word())
}

/// Whether a line counts as an error line: its lowercase form contains
/// "error".
pub open spec fn is_error_line(line: Seq<char>) -> bool {
    holds_error_word(lower_of(line))
}

/// Tells whether an already lowercased text contains "error".
pub fn contains_error_word(lowered: &str) -> (r: bool)
    ensures
        r == holds_error_word(lowered@),
{
    let word: [char; 5] = ['e', 'r', 'r', 'o', 'r'];
    assert(word@ == error_word());
    let n: usize = lowered.unicode_len();
    if n < 5 {
        assert forall|i: int| !occurs_at(lowered@, error_word(), i) by {}
        return false;
    }
    let mut i: usize = 0;
    while i <= n - 5
        invariant
            n == lowered@.len(),
            5 <= n,
            word@ == error_word(),
            i <= n - 4,
            forall|k: int| 0 <= k < i ==> !occurs_at(lowered@, error_word(), k),
        decreases n - i,
    {
        let mut j: usize = 0;
        let mut same: bool = true;
        while j < 5
            invariant
                i + 5 <= n,
                n == lowered@.len(),
                word@ == error_word(),
                j <= 5,
                same == (forall|m: int| 0 <= m < j ==> lowered@[i + m] == error_word()[m]),
            decreases 5 - j,
        {
            if lowered.get_char(i + j) != word[j] {
                same = false;
            }
            j = j + 1;
        }
        if same {
            assert(lowered@.subrange(i as int, i + 5) =~= error_word());
            assert(occurs_at(lowered@, error_word(), i as int));
            return true;
        }
        assert(!occurs_at(lowered@, error_word(), i as int)) by {
            let m = choose|m: int| 0 <= m < 5 && lowered@[i + m] != error_word()[m];
            if occurs_at(lowered@, error_word(), i as int) {
                assert(lowered@.subrange(i as int, i + 5)[m] == lowered@[i + m]);
            }
        }
        i = i + 1;
    }
    assert forall|k: int| !occurs_at(lowered@, error_word(), k) by {
        if 0 <= k && k >= i {
            assert(k + 5 > n);
        }
    }
    false
}

/// Tells whether `line` is an error line: its lowercase form contains
/// "error", with no regard to word boundaries.
pub fn is_error_text(line: &str) -> (r: bool)
    ensures
        r == is_error_line(line@),
{
    let lowered = lowercase(line);
    contains_error_word(lowered.as_str())
}

} // verus!
