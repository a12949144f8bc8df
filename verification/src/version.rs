//! Dotted version numbers such as `1.2.3`.

use vstd::prelude::*;
use std::cmp::Ordering;
use vstd::std_specs::cmp::PartialEqSpec;
use vstd::std_specs::cmp::PartialOrdSpec;
use crate::text::{
    all_digits, decimal_string, decimal_text, digit_char, digit_value, digits_value,
    is_digit, parse_u32_chars, parse_u32_text, push_char, str_chars,
};

verus! {

/// The pieces of `s` between `.` separators, as `str::split('.')` yields them:
/// there is always at least one piece, and each `.` starts a new one.
pub open spec fn split_dots(s: Seq<char>) -> Seq<Seq<char>>
    decreases s.len(),
{
    if s.len() == 0 {
        seq![Seq::<char>::empty()]
    } else {
        let r = split_dots(s.drop_last());
        if s.last() == '.' {
            r.push(Seq::<char>::empty())
        } else {
            r.update(r.len() - 1, r.last().push(s.last()))
        }
    }
}

/// The numbers of the pieces that read as a `u32`, in order; the other pieces are skipped.
pub open spec fn parsed_components(pieces: Seq<Seq<char>>) -> Seq<u32>
    decreases pieces.len(),
{
    if pieces.len() == 0 {
        Seq::<u32>::empty()
    } else {
        let r = parsed_components(pieces.drop_last());
        match parse_u32_text(pieces.last()) {
            Some(v) => r.push(v),
            None => r,
        }
    }
}

/// The components that `Version::new` finds in `s`, or `None` when there is none.
pub open spec fn parse_version_text(s: Seq<char>) -> Option<Seq<u32>> {
    let c = parsed_components(split_dots(s));
    if c.len() == 0 {
        None
    } else {
        Some(c)
    }
}

/// The components written in decimal and joined by `.`.
pub open spec fn version_text(c: Seq<u32>) -> Seq<char>
    decreases c.len(),
{
    if c.len() == 0 {
        Seq::<char>::empty()
    } else if c.len() == 1 {
        decimal_text(c[0] as nat)
    } else {
        version_text(c.drop_last()).push('.') + decimal_text(c.last() as nat)
    }
}

/// Component `i` of `c`, where missing components count as zero.
pub open spec fn component_at(c: Seq<u32>, i: int) -> int {
    if 0 <= i < c.len() {
        c[i] as int
    } else {
        0
    }
}

/// Compares `a` and `b` from component `i` on: `-1`, `0` or `1` as `a` is
/// below, equal to or above `b` at the first component where they differ.
pub open spec fn compare_from(a: Seq<u32>, b: Seq<u32>, i: int) -> int
    decreases a.len() + b.len() - i,
{
    if i < 0 || (i >= a.len() && i >= b.len()) {
        0
    } else if component_at(a, i) < component_at(b, i) {
        -1
    } else if component_at(a, i) > component_at(b, i) {
        1
    } else {
        compare_from(a, b, i + 1)
    }
}

/// How version `a` compares with version `b` (`-1`, `0` or `1`), missing components being zero.
pub open spec fn compare_versions(a: Seq<u32>, b: Seq<u32>) -> int {
    compare_from(a, b, 0)
}

/// A version number: its numeric components in order.
#[derive(Debug, Clone)]
pub struct Version {
    components: Vec<u32>,
}

impl View for Version {
    type V = Seq<u32>;

    closed spec fn view(&self) -> Seq<u32> {
        self.components@
    }
}

impl Version {
    /// Reads the `.`-separated numbers of `version_str`, skipping pieces that are
    /// not numbers; `None` when no piece is a number.
    pub fn new(version_str: &str) -> (r: Option<Version>)
        ensures
            match r {
                Some(v) => parse_version_text(version_str@) == Some(v@),
                None => parse_version_text(version_str@) is None,
            },
    {
        let chars = str_chars(version_str);
        let n = chars.len();
        let mut components: Vec<u32> = Vec::new();
        let mut piece: Vec<char> = Vec::new();
        let mut i: usize = 0;
        proof {
            assert(chars@.take(0) =~= Seq::<char>::empty());
        }
        while i < n
            invariant
                i <= n,
                n == chars@.len(),
                split_dots(chars@.take(i as int)).len() >= 1,
                piece@ == split_dots(chars@.take(i as int)).last(),
                components@ == parsed_components(split_dots(chars@.take(i as int)).drop_last()),
            decreases n - i,
        {
            let c = chars[i];
            let ghost before = split_dots(chars@.take(i as int));
            assert(chars@.take(i + 1).drop_last() =~= chars@.take(i as int));
            assert(chars@.take(i + 1).last() == c);
            if c == '.' {
                assert(split_dots(chars@.take(i + 1)) == before.push(Seq::<char>::empty()));
                assert(before.push(Seq::<char>::empty()).drop_last() =~= before);
                match parse_u32_chars(&piece) {
                    Some(v) => components.push(v),
                    None => {},
                }
                piece = Vec::new();
            } else {
                let ghost after = before.update(before.len() - 1, before.last().push(c));
                assert(split_dots(chars@.take(i + 1)) == after);
                assert(after.drop_last() =~= before.drop_last());
                piece.push(c);
            }
            i = i + 1;
        }
        assert(chars@.take(n as int) =~= chars@);
        match parse_u32_chars(&piece) {
            Some(v) => components.push(v),
            None => {},
        }
        if components.len() == 0 {
            None
        } else {
            Some(Version { components })
        }
    }
}

impl Version {
    /// The version with exactly these components.
    pub fn from_components(components: Vec<u32>) -> (v: Version)
        ensures
            v@ == components@,
    {
        Version { components }
    }

    /// The components, in order.
    pub fn components(&self) -> (r: &Vec<u32>)
        ensures
            r@ == self@,
    {
        &self.components
    }

    /// `-1`, `0` or `1` as `self` is below, equal to or above `other`,
    /// missing trailing components counting as zero.
    pub fn compare_to(&self, other: &Version) -> (r: i8)
        ensures
            r as int == compare_versions(self@, other@),
    {
        let a = &self.components;
        let b = &other.components;
        let max_len = if a.len() >= b.len() { a.len() } else { b.len() };
        let mut i: usize = 0;
        while i < max_len
            invariant
                i <= max_len,
                max_len == (if a@.len() >= b@.len() { a@.len() } else { b@.len() }),
                a@ == self@,
                b@ == other@,
                compare_versions(a@, b@) == compare_from(a@, b@, i as int),
            decreases max_len - i,
        {
            let x: u32 = if i < a.len() { a[i] } else { 0 };
            let y: u32 = if i < b.len() { b[i] } else { 0 };
            assert(x as int == component_at(a@, i as int));
            assert(y as int == component_at(b@, i as int));
            if x < y {
                return -1;
            } else if x > y {
                return 1;
            }
            i = i + 1;
        }
        0
    }

    /// The components in decimal, joined by `.`.
    pub fn to_string(&self) -> (r: String)
        ensures
            r@ == version_text(self@),
    {
        let c = &self.components;
        let mut out = String::new();
        let mut i: usize = 0;
        proof {
            assert(c@.take(0) =~= Seq::<u32>::empty());
        }
        while i < c.len()
            invariant
                i <= c@.len(),
                out@ == version_text(c@.take(i as int)),
            decreases c@.len() - i,
        {
            assert(c@.take(i + 1).drop_last() =~= c@.take(i as int));
            assert(c@.take(i + 1).last() == c@[i as int]);
            if i > 0 {
                push_char(&mut out, '.');
            }
            let d = decimal_string(c[i]);
            out.append(d.as_str());
            i = i + 1;
        }
        assert(c@.take(c@.len() as int) =~= c@);
        out
    }
}

/// The `Ordering` that a comparison result of `compare_versions` stands for.
pub open spec fn ordering_of(c: int) -> Ordering {
    if c < 0 {
        Ordering::Less
    } else if c > 0 {
        Ordering::Greater
    } else {
        Ordering::Equal
    }
}

impl PartialEq for Version {
    fn eq(&self, other: &Self) -> (r: bool) {
        self.compare_to(other) == 0
    }
}

impl vstd::std_specs::cmp::PartialEqSpecImpl for Version {
    open spec fn obeys_eq_spec() -> bool {
        true
    }

    open spec fn eq_spec(&self, other: &Self) -> bool {
        compare_versions(self@, other@) == 0
    }
}

impl PartialOrd for Version {
    fn partial_cmp(&self, other: &Self) -> (r: Option<Ordering>) {
        let c = self.compare_to(other);
        if c < 0 {
            Some(Ordering::Less)
        } else if c > 0 {
            Some(Ordering::Greater)
        } else {
            Some(Ordering::Equal)
        }
    }
}

impl vstd::std_specs::cmp::PartialOrdSpecImpl for Version {
    open spec fn obeys_partial_cmp_spec() -> bool {
        true
    }

    open spec fn partial_cmp_spec(&self, other: &Self) -> Option<Ordering> {
        Some(ordering_of(compare_versions(self@, other@)))
    }
}

/// `split_dots` always yields at least one piece.
proof fn lemma_split_dots_nonempty(s: Seq<char>)
    ensures
        split_dots(s).len() >= 1,
    decreases s.len(),
{
    if s.len() > 0 {
        lemma_split_dots_nonempty(s.drop_last());
    }
}

/// Appending characters other than `.` only extends the last piece.
proof fn lemma_split_dots_extend(p: Seq<char>, d: Seq<char>)
    requires
        forall|i: int| 0 <= i < d.len() ==> d[i] != '.',
    ensures
        split_dots(p + d) == split_dots(p).update(
            split_dots(p).len() - 1,
            split_dots(p).last() + d,
        ),
    decreases d.len(),
{
    lemma_split_dots_nonempty(p);
    if d.len() == 0 {
        assert(p + d =~= p);
        assert(split_dots(p).last() + d =~= split_dots(p).last());
        assert(split_dots(p).update(split_dots(p).len() - 1, split_dots(p).last())
            =~= split_dots(p));
    } else {
        let d0 = d.drop_last();
        lemma_split_dots_extend(p, d0);
        assert((p + d).drop_last() =~= p + d0);
        assert((p + d).last() == d.last());
        assert(split_dots(p).last() + d0 + seq![d.last()] =~= split_dots(p).last() + d);
        assert((split_dots(p).last() + d0).push(d.last()) =~= split_dots(p).last() + d);
        let r0 = split_dots(p).update(split_dots(p).len() - 1, split_dots(p).last() + d0);
        assert(r0.update(r0.len() - 1, r0.last().push(d.last())) =~= split_dots(p).update(
            split_dots(p).len() - 1,
            split_dots(p).last() + d,
        ));
    }
}

/// The digits of `decimal_text(n)` are worth `n`.
proof fn lemma_decimal_text_digits(n: nat)
    ensures
        decimal_text(n).len() > 0,
        all_digits(decimal_text(n)),
        digits_value(decimal_text(n)) == n,
        forall|i: int| 0 <= i < decimal_text(n).len() ==> decimal_text(n)[i] != '.',
        forall|i: int| 0 <= i < decimal_text(n).len() ==> decimal_text(n)[i] != '+',
    decreases n,
{
    if n < 10 {
        let t = decimal_text(n);
        assert(t.drop_last() =~= Seq::<char>::empty());
        assert(is_digit(digit_char(n)));
        assert(digit_value(digit_char(n)) == n);
        assert(t.last() == digit_char(n));
        assert(digits_value(t.drop_last()) == 0);
        assert(digits_value(t) == digits_value(t.drop_last()) * 10 + digit_value(t.last()));
    } else {
        lemma_decimal_text_digits(n / 10);
        let t = decimal_text(n);
        assert(t.drop_last() =~= decimal_text(n / 10));
        assert(is_digit(digit_char(n % 10)));
        assert(digit_value(digit_char(n % 10)) == n % 10);
        assert(t.last() == digit_char(n % 10));
        assert(digits_value(t) == digits_value(t.drop_last()) * 10 + digit_value(t.last()));
        assert((n / 10) * 10 + n % 10 == n) by (nonlinear_arith);
    }
}

/// A component written in decimal reads back as itself.
proof fn lemma_parse_decimal_text(v: u32)
    ensures
        parse_u32_text(decimal_text(v as nat)) == Some(v),
{
    lemma_decimal_text_digits(v as nat);
}

/// Splitting the text of components gives back the decimal texts of the components.
proof fn lemma_split_version_text(c: Seq<u32>)
    requires
        c.len() > 0,
    ensures
        split_dots(version_text(c)) =~= Seq::new(c.len(), |i: int| decimal_text(c[i] as nat)),
    decreases c.len(),
{
    let last = decimal_text(c.last() as nat);
    lemma_decimal_text_digits(c.last() as nat);
    if c.len() == 1 {
        lemma_split_dots_extend(Seq::<char>::empty(), last);
        assert(Seq::<char>::empty() + last =~= last);
        assert(Seq::<char>::empty() + last =~= decimal_text(c[0] as nat));
    } else {
        let c0 = c.drop_last();
        lemma_split_version_text(c0);
        let p = version_text(c0).push('.');
        assert(p.drop_last() =~= version_text(c0));
        assert(split_dots(p) == split_dots(version_text(c0)).push(Seq::<char>::empty()));
        lemma_split_dots_extend(p, last);
        assert(Seq::<char>::empty() + last =~= last);
    }
}

/// Reading back the decimal texts of components gives the components.
proof fn lemma_parse_decimal_pieces(c: Seq<u32>)
    ensures
        parsed_components(Seq::new(c.len(), |i: int| decimal_text(c[i] as nat))) =~= c,
    decreases c.len(),
{
    let pieces = Seq::new(c.len(), |i: int| decimal_text(c[i] as nat));
    if c.len() > 0 {
        let c0 = c.drop_last();
        lemma_parse_decimal_pieces(c0);
        assert(pieces.drop_last() =~= Seq::new(c0.len(), |i: int| decimal_text(c0[i] as nat)));
        lemma_parse_decimal_text(c.last());
    }
}

/// Law: a version written with `to_string` reads back, with `Version::new`,
/// as the same components.
pub proof fn law_version_text_roundtrip(c: Seq<u32>)
    requires
        c.len() > 0,
    ensures
        parse_version_text(version_text(c)) == Some(c),
{
    lemma_split_version_text(c);
    lemma_parse_decimal_pieces(c);
}

/// Law: a version compares equal to itself.
pub proof fn law_compare_reflexive(a: Seq<u32>)
    ensures
        compare_versions(a, a) == 0,
{
    lemma_compare_from_reflexive(a, 0);
}

proof fn lemma_compare_from_reflexive(a: Seq<u32>, i: int)
    ensures
        compare_from(a, a, i) == 0,
    decreases a.len() + a.len() - i,
{
    if !(i < 0 || i >= a.len()) {
        lemma_compare_from_reflexive(a, i + 1);
    }
}

proof fn lemma_compare_from_antisymmetric(a: Seq<u32>, b: Seq<u32>, i: int)
    ensures
        compare_from(a, b, i) == -compare_from(b, a, i),
        -1 <= compare_from(a, b, i) <= 1,
    decreases a.len() + b.len() - i,
{
    if !(i < 0 || (i >= a.len() && i >= b.len())) {
        lemma_compare_from_antisymmetric(a, b, i + 1);
    }
}

/// Law: swapping the two versions turns the comparison around; the result is
/// always `-1`, `0` or `1`.
pub proof fn law_compare_antisymmetric(a: Seq<u32>, b: Seq<u32>)
    ensures
        compare_versions(a, b) == -compare_versions(b, a),
        -1 <= compare_versions(a, b) <= 1,
{
    lemma_compare_from_antisymmetric(a, b, 0);
}

proof fn lemma_compare_from_transitive(a: Seq<u32>, b: Seq<u32>, c: Seq<u32>, i: int)
    requires
        i >= 0,
        compare_from(a, b, i) <= 0,
        compare_from(b, c, i) <= 0,
    ensures
        compare_from(a, c, i) <= 0,
        (compare_from(a, b, i) < 0 || compare_from(b, c, i) < 0) ==> compare_from(a, c, i) < 0,
    decreases a.len() + b.len() + c.len() - i,
{
    if i >= a.len() && i >= b.len() && i >= c.len() {
    } else {
        let x = component_at(a, i);
        let y = component_at(b, i);
        let z = component_at(c, i);
        if x == y && y == z {
            lemma_compare_from_transitive(a, b, c, i + 1);
        }
    }
}

/// Law: the order on versions is transitive, strictly so when either step is strict.
pub proof fn law_compare_transitive(a: Seq<u32>, b: Seq<u32>, c: Seq<u32>)
    requires
        compare_versions(a, b) <= 0,
        compare_versions(b, c) <= 0,
    ensures
        compare_versions(a, c) <= 0,
        (compare_versions(a, b) < 0 || compare_versions(b, c) < 0) ==> compare_versions(a, c) < 0,
{
    lemma_compare_from_transitive(a, b, c, 0);
}

proof fn lemma_compare_from_zero(a: Seq<u32>, b: Seq<u32>, i: int)
    requires
        i >= 0,
    ensures
        compare_from(a, b, i) == 0 <==> forall|j: int| j >= i ==> #[trigger] component_at(a, j)
            == component_at(b, j),
    decreases a.len() + b.len() - i,
{
    if i >= a.len() && i >= b.len() {
        assert forall|j: int| j >= i implies #[trigger] component_at(a, j) == component_at(b, j) by {}
    } else {
        lemma_compare_from_zero(a, b, i + 1);
        if compare_from(a, b, i) == 0 {
            assert forall|j: int| j >= i implies #[trigger] component_at(a, j) == component_at(b, j) by {
                if j > i {
                    assert(component_at(a, j) == component_at(b, j));
                }
            }
        }
        if forall|j: int| j >= i ==> #[trigger] component_at(a, j) == component_at(b, j) {
            assert(component_at(a, i) == component_at(b, i));
            assert forall|j: int| j >= i + 1 implies #[trigger] component_at(a, j) == component_at(b, j) by {}
        }
    }
}

/// Law: two versions are equal exactly when they agree at every position,
/// missing trailing components counting as zero (so `1.2` equals `1.2.0`).
pub proof fn law_compare_equal_iff_padded_equal(a: Seq<u32>, b: Seq<u32>)
    ensures
        compare_versions(a, b) == 0 <==> forall|j: int| j >= 0 ==> #[trigger] component_at(a, j)
            == component_at(b, j),
{
    lemma_compare_from_zero(a, b, 0);
}

/// Law: `==` on versions holds exactly when `partial_cmp` answers `Equal`, and
/// `partial_cmp` always answers.
pub proof fn law_eq_agrees_with_order(a: Version, b: Version)
    ensures
        a.eq_spec(&b) <==> a.partial_cmp_spec(&b) == Some(Ordering::Equal),
        a.partial_cmp_spec(&b) is Some,
{
}

proof fn lemma_first_difference_from(a: Seq<u32>, b: Seq<u32>, i: int, j: int)
    requires
        0 <= i <= j,
        component_at(a, j) < component_at(b, j),
        forall|k: int| 0 <= k < j ==> component_at(a, k) == component_at(b, k),
    ensures
        compare_from(a, b, i) == -1,
    decreases j - i,
{
    assert(j < b.len());
    if i < j {
        assert(component_at(a, i) == component_at(b, i));
        lemma_first_difference_from(a, b, i + 1, j);
    }
}

/// Law: the first position where the zero-padded components differ decides the
/// order: the version with the numerically smaller component there is below the
/// other.
pub proof fn law_first_difference_decides(a: Seq<u32>, b: Seq<u32>, j: int)
    requires
        0 <= j,
        component_at(a, j) < component_at(b, j),
        forall|k: int| 0 <= k < j ==> component_at(a, k) == component_at(b, k),
    ensures
        compare_versions(a, b) == -1,
        compare_versions(b, a) == 1,
{
    lemma_first_difference_from(a, b, 0, j);
    lemma_compare_from_antisymmetric(a, b, 0);
}

} // verus!
