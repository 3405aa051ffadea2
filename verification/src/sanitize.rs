//! Output sanitization: the raw text produced by the model is trimmed and
//! stripped of a single leading code-fence marker and a single trailing one,
//! in a fixed order, so that what is printed is a bare shell command.

use vstd::prelude::*;

verus! {

/// The characters removed by trimming: the Unicode White_Space set,
/// written out by code point.
pub open spec fn is_space_char(c: char) -> bool {
    let u = c as u32;
    u == 0x20 || u == 0x09 || u == 0x0a || u == 0x0b || u == 0x0c || u == 0x0d || u == 0x85
        || u == 0xa0 || u == 0x1680 || (0x2000 <= u && u <= 0x200a) || u == 0x2028 || u == 0x2029
        || u == 0x202f || u == 0x205f || u == 0x3000
}

/// Whether `c` is trimmed as whitespace.
pub fn is_space(c: char) -> (r: bool)
    ensures
        r == is_space_char(c),
{
    let u = c as u32;
    u == 0x20 || u == 0x09 || u == 0x0a || u == 0x0b || u == 0x0c || u == 0x0d || u == 0x85
        || u == 0xa0 || u == 0x1680 || (0x2000 <= u && u <= 0x200a) || u == 0x2028 || u == 0x2029
        || u == 0x202f || u == 0x205f || u == 0x3000
}

/// The text with its leading whitespace removed.
pub open spec fn trim_start_spec(s: Seq<char>) -> Seq<char>
    decreases s.len(),
{
    if s.len() > 0 && is_space_char(s[0]) {
        trim_start_spec(s.drop_first())
    } else {
        s
    }
}

/// The text with its trailing whitespace removed.
pub open spec fn trim_end_spec(s: Seq<char>) -> Seq<char>
    decreases s.len(),
{
    if s.len() > 0 && is_space_char(s.last()) {
        trim_end_spec(s.drop_last())
    } else {
        s
    }
}

/// The text with whitespace removed at both ends.
pub open spec fn trim_spec(s: Seq<char>) -> Seq<char> {
    trim_end_spec(trim_start_spec(s))
}

proof fn lemma_trim_start_subrange(s: Seq<char>, k: int)
    requires
        0 <= k <= s.len(),
        forall|j: int| 0 <= j < k ==> is_space_char(s[j]),
        k < s.len() ==> !is_space_char(s[k]),
    ensures
        trim_start_spec(s) == s.subrange(k, s.len() as int),
    decreases k,
{
    if k == 0 {
        assert(s.subrange(0, s.len() as int) =~= s);
    } else {
        lemma_trim_start_subrange(s.drop_first(), k - 1);
        assert(s.drop_first().subrange(k - 1, s.drop_first().len() as int) =~= s.subrange(
            k,
            s.len() as int,
        ));
    }
}

proof fn lemma_trim_end_subrange(s: Seq<char>, k: int)
    requires
        0 <= k <= s.len(),
        forall|j: int| k <= j < s.len() ==> is_space_char(s[j]),
        k > 0 ==> !is_space_char(s[k - 1]),
    ensures
        trim_end_spec(s) == s.subrange(0, k),
    decreases s.len() - k,
{
    if k == s.len() {
        assert(s.subrange(0, s.len() as int) =~= s);
    } else {
        lemma_trim_end_subrange(s.drop_last(), k);
        assert(s.drop_last().subrange(0, k) =~= s.subrange(0, k));
    }
}

/// Trims whitespace from both ends, exactly as `trim_spec` describes.
pub fn trim_str<'a>(s: &'a str) -> (r: &'a str)
    ensures
        r@ == trim_spec(s@),
{
    let n = s.unicode_len();
    let mut a: usize = 0;
    while a < n && is_space(s.get_char(a))
        invariant
            a <= n,
            n == s@.len(),
            forall|j: int| 0 <= j < a ==> is_space_char(s@[j]),
        decreases n - a,
    {
        a = a + 1;
    }
    let mut b: usize = n;
    while b > a && is_space(s.get_char(b - 1))
        invariant
            a <= b <= n,
            n == s@.len(),
            forall|j: int| b <= j < n ==> is_space_char(s@[j]),
        decreases b,
    {
        b = b - 1;
    }
    proof {
        lemma_trim_start_subrange(s@, a as int);
        let t = s@.subrange(a as int, n as int);
        lemma_trim_end_subrange(t, b - a);
        assert(t.subrange(0, b - a) =~= s@.subrange(a as int, b as int));
    }
    s.substring_char(a, b)
}

/// `p` stands at the start of `s`.
pub open spec fn has_prefix(s: Seq<char>, p: Seq<char>) -> bool {
    p.len() <= s.len() && s.subrange(0, p.len() as int) == p
}

/// `p` stands at the end of `s`.
pub open spec fn has_suffix(s: Seq<char>, p: Seq<char>) -> bool {
    p.len() <= s.len() && s.subrange(s.len() - p.len(), s.len() as int) == p
}

/// Whether `s` starts with `p`, character by character.
pub fn str_has_prefix(s: &str, p: &str) -> (r: bool)
    ensures
        r == has_prefix(s@, p@),
{
    let n = s.unicode_len();
    let m = p.unicode_len();
    if m > n {
        return false;
    }
    let mut i: usize = 0;
    while i < m
        invariant
            i <= m <= n,
            n == s@.len(),
            m == p@.len(),
            forall|j: int| 0 <= j < i ==> s@[j] == p@[j],
        decreases m - i,
    {
        if s.get_char(i) != p.get_char(i) {
            proof {
                assert(s@.subrange(0, m as int)[i as int] == s@[i as int]);
            }
            return false;
        }
        i = i + 1;
    }
    proof {
        assert(s@.subrange(0, m as int) =~= p@);
    }
    true
}

/// Whether `s` ends with `p`, character by character.
pub fn str_has_suffix(s: &str, p: &str) -> (r: bool)
    ensures
        r == has_suffix(s@, p@),
{
    let n = s.unicode_len();
    let m = p.unicode_len();
    if m > n {
        return false;
    }
    let d = n - m;
    let mut i: usize = 0;
    while i < m
        invariant
            i <= m <= n,
            n == s@.len(),
            m == p@.len(),
            d == n - m,
            forall|j: int| 0 <= j < i ==> s@[d + j] == p@[j],
        decreases m - i,
    {
        if s.get_char(d + i) != p.get_char(i) {
            proof {
                assert(s@.subrange(d as int, n as int)[i as int] == s@[d + i]);
            }
            return false;
        }
        i = i + 1;
    }
    proof {
        assert(s@.subrange(d as int, n as int) =~= p@);
    }
    true
}

/// The leading marker stripped with highest priority.
pub open spec fn fence_bash() -> Seq<char> {
    "```bash"@
}

/// The leading marker stripped with second priority.
pub open spec fn fence_sh() -> Seq<char> {
    "```sh"@
}

/// The bare fence, stripped last at the front and alone at the back.
pub open spec fn fence() -> Seq<char> {
    "```"@
}

/// One leading fence marker removed, if present: `` ```bash `` first,
/// then `` ```sh ``, then a bare `` ``` ``. At most one is removed.
pub open spec fn strip_leading_fence_spec(s: Seq<char>) -> Seq<char> {
    if has_prefix(s, fence_bash()) {
        s.subrange(fence_bash().len() as int, s.len() as int)
    } else if has_prefix(s, fence_sh()) {
        s.subrange(fence_sh().len() as int, s.len() as int)
    } else if has_prefix(s, fence()) {
        s.subrange(fence().len() as int, s.len() as int)
    } else {
        s
    }
}

/// One trailing bare fence removed, if present.
pub open spec fn strip_trailing_fence_spec(s: Seq<char>) -> Seq<char> {
    if has_suffix(s, fence()) {
        s.subrange(0, s.len() - fence().len())
    } else {
        s
    }
}

/// Sanitized model output: trim, strip one leading marker, strip one
/// trailing marker, trim again.
pub open spec fn sanitize_spec(s: Seq<char>) -> Seq<char> {
    trim_spec(strip_trailing_fence_spec(strip_leading_fence_spec(trim_spec(s))))
}

fn strip_prefix_str<'a>(s: &'a str, p: &str) -> (r: &'a str)
    ensures
        has_prefix(s@, p@) ==> r@ == s@.subrange(p@.len() as int, s@.len() as int),
        !has_prefix(s@, p@) ==> r@ == s@,
{
    if str_has_prefix(s, p) {
        s.substring_char(p.unicode_len(), s.unicode_len())
    } else {
        s
    }
}

fn strip_suffix_str<'a>(s: &'a str, p: &str) -> (r: &'a str)
    ensures
        has_suffix(s@, p@) ==> r@ == s@.subrange(0, s@.len() - p@.len()),
        !has_suffix(s@, p@) ==> r@ == s@,
{
    if str_has_suffix(s, p) {
        s.substring_char(0, s.unicode_len() - p.unicode_len())
    } else {
        s
    }
}

/// Removes at most one leading fence marker, trying the three markers in
/// priority order.
pub fn strip_leading_fence<'a>(s: &'a str) -> (r: &'a str)
    ensures
        r@ == strip_leading_fence_spec(s@),
{
    if str_has_prefix(s, "```bash") {
        strip_prefix_str(s, "```bash")
    } else if str_has_prefix(s, "```sh") {
        strip_prefix_str(s, "```sh")
    } else {
        strip_prefix_str(s, "```")
    }
}

/// Removes at most one trailing bare fence.
pub fn strip_trailing_fence<'a>(s: &'a str) -> (r: &'a str)
    ensures
        r@ == strip_trailing_fence_spec(s@),
{
    strip_suffix_str(s, "```")
}

/// Cleans raw generated text into the final command: whitespace trimmed,
/// one leading and one trailing code-fence marker removed.
pub fn sanitize(raw: &str) -> (r: String)
    ensures
        r@ == sanitize_spec(raw@),
{
    let t1 = trim_str(raw);
    let t2 = strip_leading_fence(t1);
    let t3 = strip_trailing_fence(t2);
    let t4 = trim_str(t3);
    String::from_str(t4)
}

proof fn lemma_trim_start_no_leading_space(s: Seq<char>)
    ensures
        trim_start_spec(s).len() > 0 ==> !is_space_char(trim_start_spec(s)[0]),
    decreases s.len(),
{
    if s.len() > 0 && is_space_char(s[0]) {
        lemma_trim_start_no_leading_space(s.drop_first());
    }
}

proof fn lemma_trim_end_no_trailing_space(s: Seq<char>)
    ensures
        trim_end_spec(s).len() > 0 ==> !is_space_char(trim_end_spec(s).last()),
    decreases s.len(),
{
    if s.len() > 0 && is_space_char(s.last()) {
        lemma_trim_end_no_trailing_space(s.drop_last());
    }
}

proof fn lemma_trim_end_is_prefix(s: Seq<char>)
    ensures
        trim_end_spec(s).len() <= s.len(),
        trim_end_spec(s) == s.subrange(0, trim_end_spec(s).len() as int),
    decreases s.len(),
{
    if s.len() > 0 && is_space_char(s.last()) {
        lemma_trim_end_is_prefix(s.drop_last());
        assert(s.drop_last().subrange(0, trim_end_spec(s).len() as int) =~= s.subrange(
            0,
            trim_end_spec(s).len() as int,
        ));
    } else {
        assert(s.subrange(0, s.len() as int) =~= s);
    }
}

/// Trimming is idempotent: a trimmed text has no whitespace left at
/// either end, so a second trim changes nothing.
pub proof fn lemma_trim_idempotent(s: Seq<char>)
    ensures
        trim_spec(trim_spec(s)) == trim_spec(s),
{
    let u = trim_start_spec(s);
    let v = trim_end_spec(u);
    lemma_trim_start_no_leading_space(s);
    lemma_trim_end_is_prefix(u);
    if v.len() > 0 {
        assert(v[0] == u.subrange(0, v.len() as int)[0]);
    }
    assert(trim_start_spec(v) == v);
    lemma_trim_end_no_trailing_space(u);
    assert(trim_end_spec(v) == v);
}

/// Sanitization applied to its own result changes nothing, whenever that
/// result carries no further fence marker at either end. (A doubled
/// marker, as in `` ``````bash x ``, leaves one for a second pass, so the
/// two conditions below are exactly what rules those inputs out.)
pub proof fn lemma_sanitize_idempotent(t: Seq<char>)
    requires
        !has_prefix(sanitize_spec(t), fence()),
        !has_suffix(sanitize_spec(t), fence()),
    ensures
        sanitize_spec(sanitize_spec(t)) == sanitize_spec(t),
{
    let r = sanitize_spec(t);
    let x = strip_trailing_fence_spec(strip_leading_fence_spec(trim_spec(t)));
    lemma_trim_idempotent(x);
    assert(trim_spec(r) == r);
    reveal_strlit("```bash");
    reveal_strlit("```sh");
    reveal_strlit("```");
    if has_prefix(r, fence_bash()) {
        assert(r.subrange(0, fence_bash().len() as int)[0] == r[0]);
        assert(r.subrange(0, fence_bash().len() as int)[1] == r[1]);
        assert(r.subrange(0, fence_bash().len() as int)[2] == r[2]);
        assert(r.subrange(0, fence().len() as int) =~= fence());
    }
    if has_prefix(r, fence_sh()) {
        assert(r.subrange(0, fence_sh().len() as int)[0] == r[0]);
        assert(r.subrange(0, fence_sh().len() as int)[1] == r[1]);
        assert(r.subrange(0, fence_sh().len() as int)[2] == r[2]);
        assert(r.subrange(0, fence().len() as int) =~= fence());
    }
    assert(strip_leading_fence_spec(r) == r);
    assert(strip_trailing_fence_spec(r) == r);
}

} // verus!
