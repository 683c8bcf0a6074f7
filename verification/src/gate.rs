use vstd::prelude::*;

verus! {

/// The whitespace characters recognised when trimming a line read from the
/// terminal.
pub open spec fn is_input_ws(c: char) -> bool {
    c == ' ' || c == '\t' || c == '\n' || c == '\r'
}

/// `s` without its leading whitespace.
pub open spec fn spec_drop_leading_ws(s: Seq<char>) -> Seq<char>
    decreases s.len(),
{
    if s.len() > 0 && is_input_ws(s.first()) {
        spec_drop_leading_ws(s.drop_first())
    } else {
        s
    }
}

/// `s` without its trailing whitespace.
pub open spec fn spec_drop_trailing_ws(s: Seq<char>) -> Seq<char>
    decreases s.len(),
{
    if s.len() > 0 && is_input_ws(s.last()) {
        spec_drop_trailing_ws(s.drop_last())
    } else {
        s
    }
}

/// `s` without leading and trailing whitespace.
pub open spec fn spec_trim_ws(s: Seq<char>) -> Seq<char> {
    spec_drop_trailing_ws(spec_drop_leading_ws(s))
}

/// The safety gate's rule: a command is executed only when the trimmed,
/// case-insensitive input line is exactly `e`. Anything else aborts.
pub open spec fn spec_confirms_execution(s: Seq<char>) -> bool {
    spec_trim_ws(s) == seq!['e'] || spec_trim_ws(s) == seq!['E']
}

/// Whether `c` counts as whitespace for input trimming.
pub fn input_ws_char(c: char) -> (b: bool)
    ensures
        b == is_input_ws(c),
{
    c == ' ' || c == '\t' || c == '\n' || c == '\r'
}

proof fn lemma_drop_leading_ws_subrange(s: Seq<char>, k: int)
    requires
        0 <= k <= s.len(),
        forall|j: int| 0 <= j < k ==> is_input_ws(#[trigger] s[j]),
        k < s.len() ==> !is_input_ws(s[k]),
    ensures
        spec_drop_leading_ws(s) =~= s.subrange(k, s.len() as int),
    decreases k,
{
    if k == 0 {
        assert(s.subrange(0, s.len() as int) =~= s);
    } else {
        assert(is_input_ws(s[0]));
        lemma_drop_leading_ws_subrange(s.drop_first(), k - 1);
        assert(s.drop_first().subrange(k - 1, s.drop_first().len() as int) =~= s.subrange(
            k,
            s.len() as int,
        ));
    }
}

proof fn lemma_drop_trailing_ws_subrange(s: Seq<char>, k: int)
    requires
        0 <= k <= s.len(),
        forall|j: int| k <= j < s.len() ==> is_input_ws(#[trigger] s[j]),
        k > 0 ==> !is_input_ws(s[k - 1]),
    ensures
        spec_drop_trailing_ws(s) =~= s.subrange(0, k),
    decreases s.len() - k,
{
    if k == s.len() {
        assert(s.subrange(0, k) =~= s);
    } else {
        assert(is_input_ws(s.last()));
        lemma_drop_trailing_ws_subrange(s.drop_last(), k);
        assert(s.drop_last().subrange(0, k) =~= s.subrange(0, k));
    }
}

pub(crate) proof fn lemma_drop_trailing_ws_nonempty(s: Seq<char>)
    requires
        s.len() > 0,
        !is_input_ws(s.first()),
    ensures
        spec_drop_trailing_ws(s).len() > 0,
    decreases s.len(),
{
    if is_input_ws(s.last()) {
        assert(s.len() >= 2);
        assert(s.drop_last().first() == s.first());
        lemma_drop_trailing_ws_nonempty(s.drop_last());
    }
}

/// Whether the line holds nothing but whitespace.
pub fn is_blank_line(input: &str) -> (blank: bool)
    ensures
        blank == (spec_trim_ws(input@) == Seq::<char>::empty()),
{
    let n = input.unicode_len();
    let mut j: usize = 0;
    while j < n && input_ws_char(input.get_char(j))
        invariant
            n == input@.len(),
            j <= n,
            forall|t: int| 0 <= t < j ==> is_input_ws(#[trigger] input@[t]),
        decreases n - j,
    {
        j = j + 1;
    }
    if j == n {
        proof {
            lemma_drop_leading_ws_subrange(input@, n as int);
            assert(input@.subrange(n as int, n as int).len() == 0);
            assert(spec_trim_ws(input@) =~= Seq::<char>::empty());
        }
        true
    } else {
        proof {
            lemma_drop_leading_ws_subrange(input@, j as int);
            let t = input@.subrange(j as int, n as int);
            assert(t.first() == input@[j as int]);
            lemma_drop_trailing_ws_nonempty(t);
        }
        false
    }
}

/// The safety gate's decision on one line of input: execute only when the
/// trimmed line is `e` or `E`; any other input (the empty line included)
/// aborts.
pub fn confirm_execution(input: &str) -> (execute: bool)
    ensures
        execute == spec_confirms_execution(input@),
{
    let n = input.unicode_len();
    let mut lo: usize = 0;
    while lo < n && input_ws_char(input.get_char(lo))
        invariant
            n == input@.len(),
            lo <= n,
            forall|j: int| 0 <= j < lo ==> is_input_ws(#[trigger] input@[j]),
        decreases n - lo,
    {
        lo = lo + 1;
    }
    let mut hi: usize = n;
    while hi > lo && input_ws_char(input.get_char(hi - 1))
        invariant
            n == input@.len(),
            lo <= hi <= n,
            forall|j: int| hi <= j < n ==> is_input_ws(#[trigger] input@[j]),
        decreases hi,
    {
        hi = hi - 1;
    }
    proof {
        lemma_drop_leading_ws_subrange(input@, lo as int);
        let t = input@.subrange(lo as int, n as int);
        lemma_drop_trailing_ws_subrange(t, hi - lo as int);
        assert(t.subrange(0, hi - lo as int) =~= input@.subrange(lo as int, hi as int));
        assert(spec_trim_ws(input@) == input@.subrange(lo as int, hi as int));
    }
    if hi - lo == 1 {
        let c = input.get_char(lo);
        proof {
            assert(input@.subrange(lo as int, hi as int) =~= seq![input@[lo as int]]);
            assert(seq![c][0] == c && seq!['e'][0] == 'e' && seq!['E'][0] == 'E');
            if c == 'e' {
                assert(seq![c] =~= seq!['e']);
            }
            if c == 'E' {
                assert(seq![c] =~= seq!['E']);
            }
        }
        c == 'e' || c == 'E'
    } else {
        proof {
            assert(spec_trim_ws(input@).len() != 1);
            assert(seq!['e'].len() == 1 && seq!['E'].len() == 1);
        }
        false
    }
}

} // verus!
