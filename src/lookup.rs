use vstd::prelude::*;

use crate::record::{CountryCode, CountryView};
use crate::table::{
    all,
    is_upper_letter,
    lemma_codes_unique,
    lemma_record_shape,
    lemma_names_unique,
    table,
    views,
    COUNT,
};

verus! {

/// `c` with an ASCII lowercase letter made uppercase.
pub open spec fn upper_char(c: char) -> char {
    if 'a' <= c && c <= 'z' {
        ((c as u32) - 32) as char
    } else {
        c
    }
}

/// `s` with its ASCII lowercase letters made uppercase.
pub open spec fn ascii_upper(s: Seq<char>) -> Seq<char> {
    s.map_values(|c: char| upper_char(c))
}

/// The record of the table that `p` holds of, if there is one.
pub open spec fn find(p: spec_fn(CountryView) -> bool) -> Option<CountryView> {
    if exists|i: int| 0 <= i < table().len() && #[trigger] p(table()[i]) {
        Some(table()[choose|i: int| 0 <= i < table().len() && #[trigger] p(table()[i])])
    } else {
        None
    }
}

/// Whether a record's alpha-2 code is `code` with its letters made uppercase.
pub open spec fn has_alpha2(code: Seq<char>) -> spec_fn(CountryView) -> bool {
    |c: CountryView| c.alpha2 == ascii_upper(code)
}

/// The record whose alpha-2 code is `code` with its letters made uppercase.
pub open spec fn by_alpha2(code: Seq<char>) -> Option<CountryView> {
    find(has_alpha2(code))
}

/// Whether a record's alpha-3 code is `code` with its letters made uppercase.
pub open spec fn has_alpha3(code: Seq<char>) -> spec_fn(CountryView) -> bool {
    |c: CountryView| c.alpha3 == ascii_upper(code)
}

/// The record whose alpha-3 code is `code` with its letters made uppercase.
pub open spec fn by_alpha3(code: Seq<char>) -> Option<CountryView> {
    find(has_alpha3(code))
}

/// Whether a record's numeric code is exactly `code`.
pub open spec fn has_num(code: Seq<char>) -> spec_fn(CountryView) -> bool {
    |c: CountryView| c.num == code
}

/// The record whose numeric code is exactly `code`.
pub open spec fn by_num(code: Seq<char>) -> Option<CountryView> {
    find(has_num(code))
}

/// Whether a record's name is exactly `name`.
pub open spec fn has_name(name: Seq<char>) -> spec_fn(CountryView) -> bool {
    |c: CountryView| c.name == name
}

/// The record whose name is exactly `name`.
pub open spec fn by_name(name: Seq<char>) -> Option<CountryView> {
    find(has_name(name))
}

/// The view of a lookup's result.
pub open spec fn found(r: Option<CountryCode>) -> Option<CountryView> {
    match r {
        Some(c) => Some(c@),
        None => None,
    }
}

/// `find` picks the one record that `p` holds of.
proof fn lemma_find_one(p: spec_fn(CountryView) -> bool, i: int)
    requires
        0 <= i < table().len(),
        p(table()[i]),
        forall|j: int| 0 <= j < table().len() && #[trigger] p(table()[j]) ==> j == i,
    ensures
        find(p) == Some(table()[i]),
{
}

/// `find` finds nothing where `p` holds of no record.
proof fn lemma_find_none(p: spec_fn(CountryView) -> bool)
    requires
        forall|j: int| 0 <= j < table().len() ==> !#[trigger] p(table()[j]),
    ensures
        find(p) == None::<CountryView>,
{
}

/// Whether `stored` equals `input` once the ASCII lowercase letters of
/// `input` are made uppercase.
fn equals_upper(stored: &str, input: &str) -> (r: bool)
    ensures
        r == (stored@ == ascii_upper(input@)),
{
    let n = stored.unicode_len();
    if input.unicode_len() != n {
        return false;
    }
    let mut k: usize = 0;
    while k < n
        invariant
            n == stored@.len(),
            n == input@.len(),
            k <= n,
            forall|m: int| 0 <= m < k ==> stored@[m] == upper_char(#[trigger] input@[m]),
        decreases n - k,
    {
        let a = stored.get_char(k);
        let b = input.get_char(k);
        let same = if 'a' <= b && b <= 'z' {
            a as u32 == b as u32 - 32
        } else {
            a == b
        };
        if !same {
            assert(ascii_upper(input@)[k as int] == upper_char(b));
            return false;
        }
        k = k + 1;
    }
    assert(stored@ =~= ascii_upper(input@));
    true
}

/// The record whose alpha-2 code is `code`, ASCII letters of either case
/// accepted; `None` where no record has it.
pub fn lookup_by_alpha2(code: &str) -> (r: Option<CountryCode>)
    ensures
        found(r) == by_alpha2(code@),
{
    let ghost p = has_alpha2(code@);
    let mut codes = all();
    let mut i: usize = 0;
    while i < codes.len()
        invariant
            p == has_alpha2(code@),
            views(codes@) == table(),
            codes.len() == COUNT,
            i <= codes.len(),
            forall|k: int| 0 <= k < i ==> !#[trigger] p(table()[k]),
        decreases codes.len() - i,
    {
        assert(codes@[i as int]@ == table()[i as int]);
        if equals_upper(codes[i].alpha2.as_str(), code) {
            proof {
                lemma_codes_unique();
                assert forall|j: int| 0 <= j < table().len() && #[trigger] p(table()[j]) implies j
                    == i by {
                    assert(table()[j].alpha2 == table()[i as int].alpha2);
                }
                lemma_find_one(p, i as int);
            }
            return Some(codes.swap_remove(i));
        }
        i = i + 1;
    }
    proof {
        lemma_find_none(p);
    }
    None
}

/// The record whose alpha-3 code is `code`, ASCII letters of either case
/// accepted; `None` where no record has it.
pub fn lookup_by_alpha3(code: &str) -> (r: Option<CountryCode>)
    ensures
        found(r) == by_alpha3(code@),
{
    let ghost p = has_alpha3(code@);
    let mut codes = all();
    let mut i: usize = 0;
    while i < codes.len()
        invariant
            p == has_alpha3(code@),
            views(codes@) == table(),
            codes.len() == COUNT,
            i <= codes.len(),
            forall|k: int| 0 <= k < i ==> !#[trigger] p(table()[k]),
        decreases codes.len() - i,
    {
        assert(codes@[i as int]@ == table()[i as int]);
        if equals_upper(codes[i].alpha3.as_str(), code) {
            proof {
                lemma_codes_unique();
                assert forall|j: int| 0 <= j < table().len() && #[trigger] p(table()[j]) implies j
                    == i by {
                    assert(table()[j].alpha3 == table()[i as int].alpha3);
                }
                lemma_find_one(p, i as int);
            }
            return Some(codes.swap_remove(i));
        }
        i = i + 1;
    }
    proof {
        lemma_find_none(p);
    }
    None
}

/// The record whose numeric code is exactly `code` (three digits, zero-padded);
/// `None` where no record has it.
pub fn lookup_by_num(code: &str) -> (r: Option<CountryCode>)
    ensures
        found(r) == by_num(code@),
{
    let ghost p = has_num(code@);
    let key = code.to_owned();
    let mut codes = all();
    let mut i: usize = 0;
    while i < codes.len()
        invariant
            p == has_num(code@),
            key@ == code@,
            views(codes@) == table(),
            codes.len() == COUNT,
            i <= codes.len(),
            forall|k: int| 0 <= k < i ==> !#[trigger] p(table()[k]),
        decreases codes.len() - i,
    {
        assert(codes@[i as int]@ == table()[i as int]);
        if codes[i].num == key {
            proof {
                lemma_codes_unique();
                assert forall|j: int| 0 <= j < table().len() && #[trigger] p(table()[j]) implies j
                    == i by {
                    assert(table()[j].num == table()[i as int].num);
                }
                lemma_find_one(p, i as int);
            }
            return Some(codes.swap_remove(i));
        }
        i = i + 1;
    }
    proof {
        lemma_find_none(p);
    }
    None
}

/// The record whose name is exactly `name`, letter case included;
/// `None` where no record has it.
pub fn lookup_by_name(name: &str) -> (r: Option<CountryCode>)
    ensures
        found(r) == by_name(name@),
{
    let ghost p = has_name(name@);
    let key = name.to_owned();
    let mut codes = all();
    let mut i: usize = 0;
    while i < codes.len()
        invariant
            p == has_name(name@),
            key@ == name@,
            views(codes@) == table(),
            codes.len() == COUNT,
            i <= codes.len(),
            forall|k: int| 0 <= k < i ==> !#[trigger] p(table()[k]),
        decreases codes.len() - i,
    {
        assert(codes@[i as int]@ == table()[i as int]);
        if codes[i].name == key {
            proof {
                lemma_names_unique();
                assert forall|j: int| 0 <= j < table().len() && #[trigger] p(table()[j]) implies j
                    == i by {
                    assert(table()[j].name == table()[i as int].name);
                }
                lemma_find_one(p, i as int);
            }
            return Some(codes.swap_remove(i));
        }
        i = i + 1;
    }
    proof {
        lemma_find_none(p);
    }
    None
}

/// A sequence of uppercase ASCII letters is its own uppercase form.
proof fn lemma_upper_fixed(s: Seq<char>)
    requires
        forall|k: int| 0 <= k < s.len() ==> is_upper_letter(#[trigger] s[k]),
    ensures
        ascii_upper(s) == s,
{
    assert(ascii_upper(s) =~= s);
}

/// Making letters uppercase twice is the same as once.
proof fn lemma_upper_idempotent(s: Seq<char>)
    ensures
        ascii_upper(ascii_upper(s)) == ascii_upper(s),
{
    assert forall|k: int| 0 <= k < s.len() implies #[trigger] upper_char(upper_char(s[k]))
        == upper_char(s[k]) by {
        let c = s[k];
        if 'a' <= c && c <= 'z' {
            assert('A' <= upper_char(c) && upper_char(c) <= 'Z');
        }
    }
    assert(ascii_upper(ascii_upper(s)) =~= ascii_upper(s));
}

/// Looking up the alpha-2 code of any record of the table finds that record.
pub proof fn lemma_round_trip_alpha2(r: CountryView)
    requires
        table().contains(r),
    ensures
        by_alpha2(r.alpha2) == Some(r),
{
    let i = choose|i: int| 0 <= i < table().len() && table()[i] == r;
    lemma_record_shape();
    lemma_codes_unique();
    assert forall|k: int| 0 <= k < r.alpha2.len() implies is_upper_letter(#[trigger] r.alpha2[k]) by {
        assert(is_upper_letter(table()[i].alpha2[k]));
    }
    lemma_upper_fixed(r.alpha2);
    assert forall|j: int| 0 <= j < table().len() && #[trigger] has_alpha2(r.alpha2)(table()[j])
        implies j == i by {
        assert(table()[j].alpha2 == table()[i].alpha2);
    }
    lemma_find_one(has_alpha2(r.alpha2), i);
}

/// Looking up the alpha-3 code of any record of the table finds that record.
pub proof fn lemma_round_trip_alpha3(r: CountryView)
    requires
        table().contains(r),
    ensures
        by_alpha3(r.alpha3) == Some(r),
{
    let i = choose|i: int| 0 <= i < table().len() && table()[i] == r;
    lemma_record_shape();
    lemma_codes_unique();
    assert forall|k: int| 0 <= k < r.alpha3.len() implies is_upper_letter(#[trigger] r.alpha3[k]) by {
        assert(is_upper_letter(table()[i].alpha3[k]));
    }
    lemma_upper_fixed(r.alpha3);
    assert forall|j: int| 0 <= j < table().len() && #[trigger] has_alpha3(r.alpha3)(table()[j])
        implies j == i by {
        assert(table()[j].alpha3 == table()[i].alpha3);
    }
    lemma_find_one(has_alpha3(r.alpha3), i);
}

/// Looking up the numeric code of any record of the table finds that record.
pub proof fn lemma_round_trip_num(r: CountryView)
    requires
        table().contains(r),
    ensures
        by_num(r.num) == Some(r),
{
    let i = choose|i: int| 0 <= i < table().len() && table()[i] == r;
    lemma_codes_unique();
    assert forall|j: int| 0 <= j < table().len() && #[trigger] has_num(r.num)(table()[j]) implies j
        == i by {
        assert(table()[j].num == table()[i].num);
    }
    lemma_find_one(has_num(r.num), i);
}

/// Looking up the name of any record of the table finds that record.
pub proof fn lemma_round_trip_name(r: CountryView)
    requires
        table().contains(r),
    ensures
        by_name(r.name) == Some(r),
{
    let i = choose|i: int| 0 <= i < table().len() && table()[i] == r;
    lemma_names_unique();
    assert forall|j: int| 0 <= j < table().len() && #[trigger] has_name(r.name)(table()[j]) implies j
        == i by {
        assert(table()[j].name == table()[i].name);
    }
    lemma_find_one(has_name(r.name), i);
}

/// An alpha-2 code finds the same record in any mix of letter cases as in
/// uppercase.
pub proof fn lemma_alpha2_case_insensitive(code: Seq<char>)
    ensures
        by_alpha2(code) == by_alpha2(ascii_upper(code)),
{
    lemma_upper_idempotent(code);
}

/// An alpha-3 code finds the same record in any mix of letter cases as in
/// uppercase.
pub proof fn lemma_alpha3_case_insensitive(code: Seq<char>)
    ensures
        by_alpha3(code) == by_alpha3(ascii_upper(code)),
{
    lemma_upper_idempotent(code);
}

} // verus!
