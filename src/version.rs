use vstd::prelude::*;

verus! {

use crate::model::strings_view;
use crate::text::{pieces, split_on};

/// The numeric part of a version: major, minor and patch number, and whether it is
/// a release (a version with a pre-release part comes before its release). Numbers
/// beyond `u64` saturate.
#[derive(Debug, Clone, Copy, PartialEq, Eq, Structural)]
pub struct Precedence {
    pub major: u64,
    pub minor: u64,
    pub patch: u64,
    pub release: bool,
}

pub const SATURATION_BOUND: u64 = 1_844_674_407_370_955_161;

/// Appends decimal digit `d` to `v`, saturating.
pub open spec fn push_digit(v: u64, d: u64) -> u64 {
    if v >= SATURATION_BOUND {
        u64::MAX
    } else {
        (v * 10 + d) as u64
    }
}

pub open spec fn is_digit(c: char) -> bool {
    '0' <= c <= '9'
}

/// The decimal value of the digits of `s`, other characters skipped.
pub open spec fn digits_value(s: Seq<char>) -> u64
    decreases s.len(),
{
    if s.len() == 0 {
        0
    } else if is_digit(s.last()) {
        push_digit(digits_value(s.drop_last()), (s.last() as u32 - '0' as u32) as u64)
    } else {
        digits_value(s.drop_last())
    }
}

/// The decimal value of the digits of `s`.
pub fn digits_value_of(s: &str) -> (r: u64)
    ensures
        r == digits_value(s@),
{
    let n = s.unicode_len();
    let mut v: u64 = 0;
    let mut i: usize = 0;
    while i < n
        invariant
            n == s@.len(),
            i <= n,
            v == digits_value(s@.take(i as int)),
        decreases n - i,
    {
        let c = s.get_char(i);
        assert(s@.take(i + 1).drop_last() =~= s@.take(i as int));
        if '0' <= c && c <= '9' {
            let d = (c as u32 - '0' as u32) as u64;
            v = if v >= SATURATION_BOUND { u64::MAX } else { v * 10 + d };
        }
        i = i + 1;
    }
    assert(s@.take(n as int) =~= s@);
    v
}

/// The index of the first `-` or `+` in `s`, or its length if there is none.
pub open spec fn find_stop(s: Seq<char>) -> int
    decreases s.len(),
{
    if s.len() == 0 {
        0
    } else if s[0] == '-' || s[0] == '+' {
        0
    } else {
        1 + find_stop(s.drop_first())
    }
}

/// The index of the first `+` in `s`, or its length if there is none.
pub open spec fn find_plus(s: Seq<char>) -> int
    decreases s.len(),
{
    if s.len() == 0 {
        0
    } else if s[0] == '+' {
        0
    } else {
        1 + find_plus(s.drop_first())
    }
}

/// The pre-release part of a version: what follows the `-` that ends the numbers, up
/// to build metadata; empty for a release.
pub open spec fn pre_text(s: Seq<char>) -> Seq<char> {
    let i = find_stop(s);
    if 0 <= i < s.len() && s[i] == '-' {
        let rest = s.skip(i + 1);
        rest.take(find_plus(rest))
    } else {
        Seq::empty()
    }
}

proof fn lemma_find_stop(s: Seq<char>, i: int)
    requires
        0 <= i <= s.len(),
        forall|k: int| 0 <= k < i ==> s[k] != '-' && s[k] != '+',
        i == s.len() || s[i] == '-' || s[i] == '+',
    ensures
        find_stop(s) == i,
    decreases i,
{
    if i > 0 {
        lemma_find_stop(s.drop_first(), i - 1);
    }
}

proof fn lemma_find_plus(s: Seq<char>, i: int)
    requires
        0 <= i <= s.len(),
        forall|k: int| 0 <= k < i ==> s[k] != '+',
        i == s.len() || s[i] == '+',
    ensures
        find_plus(s) == i,
    decreases i,
{
    if i > 0 {
        lemma_find_plus(s.drop_first(), i - 1);
    }
}

/// The pre-release part of a version string.
pub fn pre_release(s: &str) -> (r: &str)
    ensures
        r@ == pre_text(s@),
{
    let n = s.unicode_len();
    let mut i: usize = 0;
    while i < n && s.get_char(i) != '-' && s.get_char(i) != '+'
        invariant
            n == s@.len(),
            i <= n,
            forall|k: int| 0 <= k < i ==> s@[k] != '-' && s@[k] != '+',
        decreases n - i,
    {
        i = i + 1;
    }
    proof {
        lemma_find_stop(s@, i as int);
    }
    if i == n || s.get_char(i) != '-' {
        let e = s.substring_char(0, 0);
        assert(e@ =~= Seq::<char>::empty());
        return e;
    }
    let rest = s.substring_char(i + 1, n);
    assert(rest@ =~= s@.skip(i + 1));
    let m = rest.unicode_len();
    let mut j: usize = 0;
    while j < m && rest.get_char(j) != '+'
        invariant
            m == rest@.len(),
            j <= m,
            forall|k: int| 0 <= k < j ==> rest@[k] != '+',
        decreases m - j,
    {
        j = j + 1;
    }
    proof {
        lemma_find_plus(rest@, j as int);
    }
    let r = rest.substring_char(0, j);
    assert(r@ =~= rest@.take(j as int));
    r
}

/// The numeric part of a version: what precedes the first `-` or `+`.
pub open spec fn core_text(s: Seq<char>) -> Seq<char> {
    s.take(find_stop(s))
}

/// The value of the `i`-th dot-separated number of the numeric part, zero if absent.
pub open spec fn core_number(s: Seq<char>, i: int) -> u64 {
    let f = pieces(core_text(s), '.');
    if i < f.len() {
        digits_value(f[i])
    } else {
        0
    }
}

/// Whether the numeric part ends in a `-`, which starts a pre-release part.
pub open spec fn is_pre_release(s: Seq<char>) -> bool {
    let i = find_stop(s);
    0 <= i < s.len() && s[i] == '-'
}

pub open spec fn precedence(s: Seq<char>) -> Precedence {
    Precedence {
        major: core_number(s, 0),
        minor: core_number(s, 1),
        patch: core_number(s, 2),
        release: !is_pre_release(s),
    }
}

/// The dot-separated identifiers of the pre-release part.
pub open spec fn pre_ids(s: Seq<char>) -> Seq<Seq<char>> {
    pieces(pre_text(s), '.')
}

/// Whether an identifier is a number: digits only, at least one.
pub open spec fn is_numeric(id: Seq<char>) -> bool {
    id.len() > 0 && forall|k: int| 0 <= k < id.len() ==> is_digit(#[trigger] id[k])
}

/// Three-way comparison of texts by character code, a prefix first.
pub open spec fn text_cmp(a: Seq<char>, b: Seq<char>) -> int
    decreases a.len(),
{
    if a.len() == 0 {
        if b.len() == 0 { 0 } else { -1 }
    } else if b.len() == 0 {
        1
    } else if (a[0] as u32) < (b[0] as u32) {
        -1
    } else if (a[0] as u32) > (b[0] as u32) {
        1
    } else {
        text_cmp(a.drop_first(), b.drop_first())
    }
}

/// Three-way comparison of pre-release identifiers: numbers by value, below text;
/// text by character code.
pub open spec fn id_cmp(a: Seq<char>, b: Seq<char>) -> int {
    if is_numeric(a) && is_numeric(b) {
        if digits_value(a) < digits_value(b) {
            -1
        } else if digits_value(a) > digits_value(b) {
            1
        } else {
            0
        }
    } else if is_numeric(a) {
        -1
    } else if is_numeric(b) {
        1
    } else {
        text_cmp(a, b)
    }
}

/// Three-way comparison of lists of identifiers, one by one, a shorter list first
/// where one is a prefix of the other.
pub open spec fn ids_cmp(a: Seq<Seq<char>>, b: Seq<Seq<char>>) -> int
    decreases a.len(),
{
    if a.len() == 0 {
        if b.len() == 0 { 0 } else { -1 }
    } else if b.len() == 0 {
        1
    } else if id_cmp(a[0], b[0]) != 0 {
        id_cmp(a[0], b[0])
    } else {
        ids_cmp(a.drop_first(), b.drop_first())
    }
}

/// Whether version `a` comes no later than version `b` in semantic-version order:
/// by major, minor and patch number, then a pre-release before its release, then
/// pre-release identifiers compared one by one. Build metadata does not count.
pub open spec fn version_le(a: Seq<char>, b: Seq<char>) -> bool {
    let p = precedence(a);
    let q = precedence(b);
    if p.major != q.major {
        p.major < q.major
    } else if p.minor != q.minor {
        p.minor < q.minor
    } else if p.patch != q.patch {
        p.patch < q.patch
    } else if p.release != q.release {
        !p.release
    } else if p.release {
        true
    } else {
        ids_cmp(pre_ids(a), pre_ids(b)) <= 0
    }
}

proof fn lemma_text_cmp_antisymmetric(a: Seq<char>, b: Seq<char>)
    ensures
        text_cmp(a, b) == -text_cmp(b, a),
    decreases a.len(),
{
    if a.len() > 0 && b.len() > 0 && a[0] as u32 == b[0] as u32 {
        lemma_text_cmp_antisymmetric(a.drop_first(), b.drop_first());
    }
}

proof fn lemma_text_cmp_transitive(a: Seq<char>, b: Seq<char>, c: Seq<char>)
    requires
        text_cmp(a, b) <= 0,
        text_cmp(b, c) <= 0,
    ensures
        text_cmp(a, c) <= 0,
    decreases a.len(),
{
    if a.len() > 0 && b.len() > 0 && c.len() > 0 && a[0] as u32 == b[0] as u32 && b[0] as u32
        == c[0] as u32 {
        lemma_text_cmp_transitive(a.drop_first(), b.drop_first(), c.drop_first());
    }
}

proof fn lemma_id_cmp_antisymmetric(a: Seq<char>, b: Seq<char>)
    ensures
        id_cmp(a, b) == -id_cmp(b, a),
{
    lemma_text_cmp_antisymmetric(a, b);
}

proof fn lemma_id_cmp_transitive(a: Seq<char>, b: Seq<char>, c: Seq<char>)
    requires
        id_cmp(a, b) <= 0,
        id_cmp(b, c) <= 0,
    ensures
        id_cmp(a, c) <= 0,
{
    if !is_numeric(a) && !is_numeric(b) && !is_numeric(c) {
        lemma_text_cmp_transitive(a, b, c);
    }
}

proof fn lemma_id_cmp_chain(a: Seq<char>, b: Seq<char>, c: Seq<char>)
    ensures
        id_cmp(a, b) < 0 && id_cmp(b, c) <= 0 ==> id_cmp(a, c) < 0,
        id_cmp(a, b) <= 0 && id_cmp(b, c) < 0 ==> id_cmp(a, c) < 0,
        id_cmp(a, b) == 0 && id_cmp(b, c) == 0 ==> id_cmp(a, c) == 0,
{
    lemma_id_cmp_antisymmetric(a, b);
    lemma_id_cmp_antisymmetric(b, c);
    lemma_id_cmp_antisymmetric(a, c);
    if id_cmp(a, b) <= 0 && id_cmp(b, c) <= 0 {
        lemma_id_cmp_transitive(a, b, c);
    }
    if id_cmp(b, c) <= 0 && id_cmp(c, a) <= 0 {
        lemma_id_cmp_transitive(b, c, a);
    }
    if id_cmp(c, a) <= 0 && id_cmp(a, b) <= 0 {
        lemma_id_cmp_transitive(c, a, b);
    }
    if id_cmp(c, b) <= 0 && id_cmp(b, a) <= 0 {
        lemma_id_cmp_transitive(c, b, a);
    }
}

proof fn lemma_ids_cmp_antisymmetric(a: Seq<Seq<char>>, b: Seq<Seq<char>>)
    ensures
        ids_cmp(a, b) == -ids_cmp(b, a),
    decreases a.len(),
{
    if a.len() > 0 && b.len() > 0 {
        lemma_id_cmp_antisymmetric(a[0], b[0]);
        lemma_ids_cmp_antisymmetric(a.drop_first(), b.drop_first());
    }
}

proof fn lemma_ids_cmp_transitive(a: Seq<Seq<char>>, b: Seq<Seq<char>>, c: Seq<Seq<char>>)
    requires
        ids_cmp(a, b) <= 0,
        ids_cmp(b, c) <= 0,
    ensures
        ids_cmp(a, c) <= 0,
    decreases a.len(),
{
    if a.len() > 0 && b.len() > 0 && c.len() > 0 {
        lemma_id_cmp_chain(a[0], b[0], c[0]);
        lemma_id_cmp_antisymmetric(a[0], b[0]);
        lemma_id_cmp_antisymmetric(b[0], c[0]);
        if id_cmp(a[0], b[0]) <= 0 && id_cmp(b[0], c[0]) <= 0 {
            lemma_id_cmp_transitive(a[0], b[0], c[0]);
        }
        if id_cmp(a[0], b[0]) == 0 && id_cmp(b[0], c[0]) == 0 {
            lemma_ids_cmp_transitive(a.drop_first(), b.drop_first(), c.drop_first());
        }
    }
}

/// Any two versions are ordered one way or the other.
pub proof fn lemma_version_le_total(a: Seq<char>, b: Seq<char>)
    ensures
        version_le(a, b) || version_le(b, a),
{
    lemma_ids_cmp_antisymmetric(pre_ids(a), pre_ids(b));
}

/// The version order is transitive.
pub proof fn lemma_version_le_transitive(a: Seq<char>, b: Seq<char>, c: Seq<char>)
    requires
        version_le(a, b),
        version_le(b, c),
    ensures
        version_le(a, c),
{
    if precedence(a) == precedence(b) && precedence(b) == precedence(c) && !precedence(a).release {
        lemma_ids_cmp_transitive(pre_ids(a), pre_ids(b), pre_ids(c));
    }
}

/// The index of the first `-` or `+` in `s`, or its length.
pub fn stop_index(s: &str) -> (r: usize)
    ensures
        r == find_stop(s@),
        r <= s@.len(),
{
    let n = s.unicode_len();
    let mut i: usize = 0;
    while i < n && s.get_char(i) != '-' && s.get_char(i) != '+'
        invariant
            n == s@.len(),
            i <= n,
            forall|k: int| 0 <= k < i ==> s@[k] != '-' && s@[k] != '+',
        decreases n - i,
    {
        i = i + 1;
    }
    proof {
        lemma_find_stop(s@, i as int);
    }
    i
}

/// The numeric part of a version string.
pub fn version_precedence(s: &str) -> (r: Precedence)
    ensures
        r == precedence(s@),
{
    let n = s.unicode_len();
    let i = stop_index(s);
    let core = s.substring_char(0, i);
    assert(core@ =~= core_text(s@));
    let parts = split_on(core, '.');
    let major = if parts.len() > 0 { digits_value_of(parts[0].as_str()) } else { 0 };
    let minor = if parts.len() > 1 { digits_value_of(parts[1].as_str()) } else { 0 };
    let patch = if parts.len() > 2 { digits_value_of(parts[2].as_str()) } else { 0 };
    let pre = i < n && s.get_char(i) == '-';
    Precedence { major, minor, patch, release: !pre }
}

/// Whether an identifier is a number.
pub fn is_numeric_id(id: &str) -> (r: bool)
    ensures
        r == is_numeric(id@),
{
    let n = id.unicode_len();
    if n == 0 {
        return false;
    }
    let mut i: usize = 0;
    while i < n
        invariant
            n == id@.len(),
            i <= n,
            forall|k: int| 0 <= k < i ==> is_digit(#[trigger] id@[k]),
        decreases n - i,
    {
        let c = id.get_char(i);
        if !('0' <= c && c <= '9') {
            return false;
        }
        i = i + 1;
    }
    true
}

/// Three-way comparison of texts by character code.
pub fn text_compare(a: &str, b: &str) -> (r: i8)
    ensures
        r as int == text_cmp(a@, b@),
{
    let n = a.unicode_len();
    let m = b.unicode_len();
    let mut i: usize = 0;
    assert(a@.skip(0) =~= a@ && b@.skip(0) =~= b@);
    while i < n && i < m && a.get_char(i) as u32 == b.get_char(i) as u32
        invariant
            n == a@.len(),
            m == b@.len(),
            i <= n,
            i <= m,
            text_cmp(a@, b@) == text_cmp(a@.skip(i as int), b@.skip(i as int)),
        decreases n - i,
    {
        assert(a@.skip(i as int).drop_first() =~= a@.skip(i + 1));
        assert(b@.skip(i as int).drop_first() =~= b@.skip(i + 1));
        i = i + 1;
    }
    if i == n {
        if i == m { 0 } else { -1 }
    } else if i == m {
        1
    } else if (a.get_char(i) as u32) < (b.get_char(i) as u32) {
        -1
    } else {
        1
    }
}

/// Three-way comparison of pre-release identifiers.
pub fn identifier_compare(a: &str, b: &str) -> (r: i8)
    ensures
        r as int == id_cmp(a@, b@),
{
    let na = is_numeric_id(a);
    let nb = is_numeric_id(b);
    if na && nb {
        let va = digits_value_of(a);
        let vb = digits_value_of(b);
        if va < vb {
            -1
        } else if va > vb {
            1
        } else {
            0
        }
    } else if na {
        -1
    } else if nb {
        1
    } else {
        text_compare(a, b)
    }
}

/// Three-way comparison of lists of pre-release identifiers.
pub fn identifiers_compare(a: &Vec<String>, b: &Vec<String>) -> (r: i8)
    ensures
        r as int == ids_cmp(strings_view(a@), strings_view(b@)),
{
    let ghost sa = strings_view(a@);
    let ghost sb = strings_view(b@);
    let n = a.len();
    let m = b.len();
    let mut i: usize = 0;
    assert(sa.skip(0) =~= sa && sb.skip(0) =~= sb);
    while i < n && i < m
        invariant
            n == a@.len(),
            m == b@.len(),
            sa == strings_view(a@),
            sb == strings_view(b@),
            i <= n,
            i <= m,
            ids_cmp(sa, sb) == ids_cmp(sa.skip(i as int), sb.skip(i as int)),
        decreases n - i,
    {
        let c = identifier_compare(a[i].as_str(), b[i].as_str());
        assert(sa.skip(i as int)[0] == sa[i as int]);
        assert(sb.skip(i as int)[0] == sb[i as int]);
        if c != 0 {
            return c;
        }
        assert(sa.skip(i as int).drop_first() =~= sa.skip(i + 1));
        assert(sb.skip(i as int).drop_first() =~= sb.skip(i + 1));
        i = i + 1;
    }
    if i == n {
        if i == m { 0 } else { -1 }
    } else {
        1
    }
}

/// Whether version `a` comes no later than version `b` in semantic-version order.
pub fn version_precedes_or_ties(a: &str, b: &str) -> (r: bool)
    ensures
        r == version_le(a@, b@),
{
    let p = version_precedence(a);
    let q = version_precedence(b);
    if p.major != q.major {
        p.major < q.major
    } else if p.minor != q.minor {
        p.minor < q.minor
    } else if p.patch != q.patch {
        p.patch < q.patch
    } else if p.release != q.release {
        !p.release
    } else if p.release {
        true
    } else {
        let ia = split_on(pre_release(a), '.');
        let ib = split_on(pre_release(b), '.');
        identifiers_compare(&ia, &ib) <= 0
    }
}

} // verus!
