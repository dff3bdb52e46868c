//! Parsing of request text: decimal numbers, genders and field lists of the
//! form `age=65&gender=Other&nationality=Indian`.

use vstd::prelude::*;
use vstd::string::*;
use crate::criteria::Gender;
use crate::store::{CriteriaPatch, PatchModel};

verus! {

/// The value of a decimal digit, or -1 for any other character.
pub open spec fn digit_value(c: char) -> int {
    if c == '0' { 0 }
    else if c == '1' { 1 }
    else if c == '2' { 2 }
    else if c == '3' { 3 }
    else if c == '4' { 4 }
    else if c == '5' { 5 }
    else if c == '6' { 6 }
    else if c == '7' { 7 }
    else if c == '8' { 8 }
    else if c == '9' { 9 }
    else { -1 }
}

/// A non-empty run of decimal digits.
pub open spec fn is_digit_text(s: Seq<char>) -> bool {
    s.len() > 0 && forall|i: int| 0 <= i < s.len() ==> digit_value(#[trigger] s[i]) >= 0
}

/// The number that a run of decimal digits denotes.
pub open spec fn nat_value(s: Seq<char>) -> int
    decreases s.len(),
{
    if s.len() == 0 {
        0
    } else {
        nat_value(s.drop_last()) * 10 + digit_value(s.last())
    }
}

/// The number that `s` denotes, where `s` is a run of digits whose value is at most `limit`.
pub open spec fn nat_of(s: Seq<char>, limit: int) -> Option<int> {
    if is_digit_text(s) && nat_value(s) <= limit {
        Some(nat_value(s))
    } else {
        None
    }
}

/// The `i32` that `s` denotes: digits, with an optional leading '-'.
pub open spec fn int_of(s: Seq<char>) -> Option<int> {
    if s.len() > 0 && s[0] == '-' {
        match nat_of(s.drop_first(), 0x8000_0000) {
            Some(v) => Some(-v),
            None => None,
        }
    } else {
        nat_of(s, 0x7fff_ffff)
    }
}

/// The gender that `s` names.
pub open spec fn gender_of(s: Seq<char>) -> Option<Gender> {
    if s == "Male"@ {
        Some(Gender::Male)
    } else if s == "Female"@ {
        Some(Gender::Female)
    } else if s == "Other"@ || s == "Others"@ {
        Some(Gender::Others)
    } else {
        None
    }
}

/// The first position at or after `i` that holds `c`, or the length of `s`.
pub open spec fn find_from(s: Seq<char>, c: char, i: int) -> int
    decreases s.len() - i,
{
    if i >= s.len() {
        s.len() as int
    } else if s[i] == c {
        i
    } else {
        find_from(s, c, i + 1)
    }
}

proof fn lemma_find_from_bounds(s: Seq<char>, c: char, i: int)
    requires
        0 <= i <= s.len(),
    ensures
        i <= find_from(s, c, i) <= s.len(),
    decreases s.len() - i,
{
    if i < s.len() && s[i] != c {
        lemma_find_from_bounds(s, c, i + 1);
    }
}

/// `acc` with one `key=value` pair laid over it, where the pair is well formed.
pub open spec fn apply_pair(pair: Seq<char>, acc: PatchModel) -> Option<PatchModel> {
    let j = find_from(pair, '=', 0);
    if j >= pair.len() {
        None
    } else {
        let key = pair.subrange(0, j);
        let value = pair.subrange(j + 1, pair.len() as int);
        if key == "age"@ {
            match int_of(value) {
                Some(n) => Some(PatchModel { age: Some(n as i32), ..acc }),
                None => None,
            }
        } else if key == "gender"@ {
            match gender_of(value) {
                Some(g) => Some(PatchModel { gender: Some(g), ..acc }),
                None => None,
            }
        } else if key == "nationality"@ {
            Some(PatchModel { nationality: Some(value), ..acc })
        } else {
            None
        }
    }
}

/// The pairs of `s` from position `i` on, separated by '&', laid over `acc` in order.
pub open spec fn fields_from(s: Seq<char>, i: int, acc: PatchModel) -> Option<PatchModel>
    decreases s.len() + 1 - i,
    via fields_from_decreases
{
    if i < 0 || i >= s.len() {
        Some(acc)
    } else {
        let e = find_from(s, '&', i);
        match apply_pair(s.subrange(i, e), acc) {
            Some(a) => fields_from(s, e + 1, a),
            None => None,
        }
    }
}

#[via_fn]
proof fn fields_from_decreases(s: Seq<char>, i: int, acc: PatchModel) {
    if 0 <= i < s.len() {
        lemma_find_from_bounds(s, '&', i);
    }
}

/// The fields that a request body gives, or `None` where it is malformed.
pub open spec fn fields_of(s: Seq<char>) -> Option<PatchModel> {
    fields_from(s, 0, PatchModel { age: None, gender: None, nationality: None })
}

fn digit_of(c: char) -> (r: Option<u64>)
    ensures
        match r {
            Some(d) => d < 10 && digit_value(c) == d as int,
            None => digit_value(c) < 0,
        },
{
    match c {
        '0' => Some(0),
        '1' => Some(1),
        '2' => Some(2),
        '3' => Some(3),
        '4' => Some(4),
        '5' => Some(5),
        '6' => Some(6),
        '7' => Some(7),
        '8' => Some(8),
        '9' => Some(9),
        _ => None,
    }
}

proof fn lemma_nat_value_prefix(s: Seq<char>, k: int)
    requires
        0 <= k <= s.len(),
        forall|i: int| 0 <= i < s.len() ==> digit_value(#[trigger] s[i]) >= 0,
    ensures
        nat_value(s.subrange(0, k)) <= nat_value(s),
    decreases s.len() - k,
{
    if k < s.len() {
        lemma_nat_value_prefix(s, k + 1);
        assert(s.subrange(0, k + 1).drop_last() =~= s.subrange(0, k));
        assert(s.subrange(0, k + 1).last() == s[k]);
        assert(nat_value(s.subrange(0, k)) >= 0) by {
            lemma_nat_value_nonneg(s.subrange(0, k));
        }
    } else {
        assert(s.subrange(0, k) =~= s);
    }
}

proof fn lemma_nat_value_nonneg(s: Seq<char>)
    requires
        forall|i: int| 0 <= i < s.len() ==> digit_value(#[trigger] s[i]) >= 0,
    ensures
        nat_value(s) >= 0,
    decreases s.len(),
{
    if s.len() > 0 {
        assert(s.last() == s[s.len() - 1]);
        lemma_nat_value_nonneg(s.drop_last());
    }
}

/// The number that `s` denotes, where it is a run of digits of value at most `limit`.
pub fn parse_nat(s: &str, limit: u64) -> (r: Option<u64>)
    ensures
        match r {
            Some(v) => nat_of(s@, limit as int) == Some(v as int),
            None => nat_of(s@, limit as int) is None,
        },
{
    let n = s.unicode_len();
    if n == 0 {
        return None;
    }
    let mut val: u64 = 0;
    let mut k: usize = 0;
    while k < n
        invariant
            n == s@.len(),
            k <= n,
            val as int == nat_value(s@.subrange(0, k as int)),
            val <= limit,
            forall|i: int| 0 <= i < k ==> digit_value(#[trigger] s@[i]) >= 0,
        decreases n - k,
    {
        let c = s.get_char(k);
        let d = match digit_of(c) {
            Some(d) => d,
            None => {
                assert(!is_digit_text(s@));
                return None;
            },
        };
        let ghost next = s@.subrange(0, k + 1);
        assert(next.drop_last() =~= s@.subrange(0, k as int));
        assert(next.last() == c);
        if d > limit || val > (limit - d) / 10 {
            proof {
                assert(val * 10 + d > limit) by (nonlinear_arith)
                    requires d > limit || val > (limit - d) / 10, val >= 0, d >= 0;
                if is_digit_text(s@) {
                    lemma_nat_value_prefix(s@, k + 1);
                }
            }
            return None;
        }
        assert(val * 10 + d <= limit) by (nonlinear_arith)
            requires d <= limit, val <= (limit - d) / 10;
        val = val * 10 + d;
        k = k + 1;
    }
    assert(s@.subrange(0, n as int) =~= s@);
    Some(val)
}

/// The `i32` that `s` denotes.
pub fn parse_int(s: &str) -> (r: Option<i32>)
    ensures
        match r {
            Some(v) => int_of(s@) == Some(v as int),
            None => int_of(s@) is None,
        },
{
    let n = s.unicode_len();
    if n > 0 && s.get_char(0) == '-' {
        let digits = s.substring_char(1, n);
        assert(digits@ =~= s@.drop_first());
        match parse_nat(digits, 0x8000_0000) {
            Some(v) => {
                let w: i64 = -(v as i64);
                Some(w as i32)
            },
            None => None,
        }
    } else {
        match parse_nat(s, 0x7fff_ffff) {
            Some(v) => Some(v as i32),
            None => None,
        }
    }
}

/// Whether `a` and `b` hold the same characters.
pub fn text_eq(a: &str, b: &str) -> (r: bool)
    ensures
        r == (a@ == b@),
{
    let n = a.unicode_len();
    if n != b.unicode_len() {
        return false;
    }
    let mut k: usize = 0;
    while k < n
        invariant
            n == a@.len(),
            n == b@.len(),
            k <= n,
            forall|i: int| 0 <= i < k ==> a@[i] == b@[i],
        decreases n - k,
    {
        if a.get_char(k) != b.get_char(k) {
            return false;
        }
        k = k + 1;
    }
    assert(a@ =~= b@);
    true
}

/// The gender that `s` names.
pub fn parse_gender(s: &str) -> (r: Option<Gender>)
    ensures
        r == gender_of(s@),
{
    proof {
        reveal_strlit("Male");
        reveal_strlit("Female");
        reveal_strlit("Other");
        reveal_strlit("Others");
    }
    if text_eq(s, "Male") {
        Some(Gender::Male)
    } else if text_eq(s, "Female") {
        Some(Gender::Female)
    } else if text_eq(s, "Other") || text_eq(s, "Others") {
        Some(Gender::Others)
    } else {
        None
    }
}

/// The first position at or after `from` that holds `c`, or the length of `s`.
pub fn find_char(s: &str, c: char, from: usize) -> (r: usize)
    requires
        from <= s@.len(),
    ensures
        r as int == find_from(s@, c, from as int),
{
    let n = s.unicode_len();
    let mut k: usize = from;
    while k < n && s.get_char(k) != c
        invariant
            n == s@.len(),
            from <= k <= n,
            find_from(s@, c, from as int) == find_from(s@, c, k as int),
        decreases n - k,
    {
        k = k + 1;
    }
    k
}

fn apply_pair_text(pair: &str, acc: CriteriaPatch) -> (r: Option<CriteriaPatch>)
    ensures
        match r {
            Some(p) => apply_pair(pair@, acc@) == Some(p@),
            None => apply_pair(pair@, acc@) is None,
        },
{
    let n = pair.unicode_len();
    let j = find_char(pair, '=', 0);
    if j >= n {
        return None;
    }
    let key = pair.substring_char(0, j);
    let value = pair.substring_char(j + 1, n);
    proof {
        reveal_strlit("age");
        reveal_strlit("gender");
        reveal_strlit("nationality");
    }
    if text_eq(key, "age") {
        match parse_int(value) {
            Some(a) => Some(CriteriaPatch { age: Some(a), gender: acc.gender, nationality: acc.nationality }),
            None => None,
        }
    } else if text_eq(key, "gender") {
        match parse_gender(value) {
            Some(g) => Some(CriteriaPatch { age: acc.age, gender: Some(g), nationality: acc.nationality }),
            None => None,
        }
    } else if text_eq(key, "nationality") {
        Some(CriteriaPatch { age: acc.age, gender: acc.gender, nationality: Some(value.to_owned()) })
    } else {
        None
    }
}

/// The fields that a request body gives, or `None` where it is malformed.
pub fn parse_fields(body: &str) -> (r: Option<CriteriaPatch>)
    ensures
        match r {
            Some(p) => fields_of(body@) == Some(p@),
            None => fields_of(body@) is None,
        },
{
    let n = body.unicode_len();
    let mut acc = CriteriaPatch::empty();
    let mut i: usize = 0;
    while i < n
        invariant
            n == body@.len(),
            i <= n,
            fields_of(body@) == fields_from(body@, i as int, acc@),
        decreases n - i,
    {
        let e = find_char(body, '&', i);
        proof {
            lemma_find_from_bounds(body@, '&', i as int);
        }
        let pair = body.substring_char(i, e);
        match apply_pair_text(pair, acc) {
            Some(a) => {
                acc = a;
            },
            None => {
                return None;
            },
        }
        if e >= n {
            assert(fields_from(body@, e + 1, acc@) == Some::<PatchModel>(acc@));
            i = n;
        } else {
            i = e + 1;
        }
    }
    Some(acc)
}

} // verus!
