use vstd::prelude::*;

use crate::dto::Crop;
use crate::dto::count_matching;
use crate::dto::lemma_count_bounds;

verus! {

/// The table of cells that the csv reader decodes from the given bytes, the
/// header row included. Named only: what it is on given bytes is the csv
/// format itself, which only the reader computes.
pub uninterp spec fn spec_csv_rows(data: Seq<u8>) -> Seq<Seq<Seq<char>>>;

/// Whether the csv reader decodes the given bytes at all: valid UTF-8 and
/// uniform record lengths. Named only, for the same reason as the rows;
/// decoding a byte slice under the fixed reader settings is a function of
/// the bytes alone.
pub uninterp spec fn spec_csv_decodes(data: Seq<u8>) -> bool;

/// Relies on csv's `Reader` over a byte slice, headers off and default
/// settings: the decoded rows are a function of the bytes alone; malformed
/// input (invalid UTF-8 or uneven record lengths) yields `None`.
#[verifier::external_body]
pub fn extract_content(data: &[u8]) -> (r: Option<Vec<Vec<String>>>)
    ensures
        r is Some <==> spec_csv_decodes(data@),
        r matches Some(rows) ==> rows.deep_view() == spec_csv_rows(data@),
{
    let mut reader = csv::ReaderBuilder::new().has_headers(false).from_reader(data);
    let mut rows: Vec<Vec<String>> = Vec::new();
    for record in reader.records() {
        match record {
            Ok(rec) => rows.push(rec.iter().map(|field| field.to_string()).collect()),
            Err(_) => return None,
        }
    }
    Some(rows)
}

/// Index of the first header cell equal to `name`, if any.
pub open spec fn spec_find_col(headers: Seq<Seq<char>>, name: Seq<char>) -> Option<int>
    decreases headers.len(),
{
    if headers.len() == 0 {
        None
    } else if headers[0] == name {
        Some(0)
    } else {
        match spec_find_col(headers.drop_first(), name) {
            Some(i) => Some(i + 1),
            None => None,
        }
    }
}

/// The found column is the first cell equal to `name`; a missing column
/// means no cell is equal to it.
pub proof fn lemma_find_col_props(headers: Seq<Seq<char>>, name: Seq<char>)
    ensures
        match spec_find_col(headers, name) {
            Some(i) => 0 <= i < headers.len() && headers[i] == name && (forall|j: int|
                0 <= j < i ==> headers[j] != name),
            None => forall|j: int| 0 <= j < headers.len() ==> headers[j] != name,
        },
    decreases headers.len(),
{
    if headers.len() > 0 && headers[0] != name {
        let rest = headers.drop_first();
        lemma_find_col_props(rest, name);
        assert(forall|j: int| 0 <= j < rest.len() ==> rest[j] == headers[j + 1]);
        match spec_find_col(rest, name) {
            Some(i) => {
                assert(headers[i + 1] == rest[i]);
                assert(forall|j: int|
                    1 <= j < i + 1 ==> headers[j] == rest[j - 1] && rest[j - 1] != name);
            },
            None => {
                assert(forall|j: int|
                    1 <= j < headers.len() ==> headers[j] == rest[j - 1] && rest[j - 1] != name);
            },
        }
    }
}

/// Finds the column a header names, as the first matching header cell.
pub fn find_column(headers: &Vec<String>, name: &str) -> (r: Option<usize>)
    ensures
        (match r {
            Some(i) => Some(i as int),
            None => None,
        }) == spec_find_col(headers.deep_view(), name@),
{
    let wanted: String = name.to_owned();
    let n = headers.len();
    let mut i: usize = 0;
    while i < n
        invariant
            n == headers@.len(),
            i <= n,
            wanted@ == name@,
            forall|j: int| 0 <= j < i ==> headers.deep_view()[j] != name@,
        decreases n - i,
    {
        if headers[i] == wanted {
            proof {
                let hv = headers.deep_view();
                lemma_find_col_props(hv, name@);
                assert(hv[i as int] == headers@[i as int]@);
                assert(hv[i as int] == name@);
                match spec_find_col(hv, name@) {
                    Some(fi) => {
                        if fi < i as int {
                            assert(hv[fi] != name@);
                        }
                        if fi > i as int {
                            assert(hv[i as int] != name@);
                        }
                    },
                    None => {
                        assert(hv[i as int] != name@);
                    },
                }
            }
            return Some(i);
        }
        i = i + 1;
    }
    proof {
        let hv = headers.deep_view();
        lemma_find_col_props(hv, name@);
        if let Some(fi) = spec_find_col(hv, name@) {
            assert(hv[fi] != name@);
        }
    }
    None
}

/// The numeric value of a decimal digit string.
pub open spec fn spec_digits_value(s: Seq<char>) -> int
    decreases s.len(),
{
    if s.len() == 0 {
        0
    } else {
        spec_digits_value(s.drop_last()) * 10 + (s.last() as int - 48)
    }
}

/// One or more decimal digits and nothing else.
pub open spec fn spec_is_digits(s: Seq<char>) -> bool {
    s.len() > 0 && forall|i: int| 0 <= i < s.len() ==> 48 <= #[trigger] (s[i] as int) <= 57
}

/// The digit part of a decimal literal: an optional leading plus is dropped.
pub open spec fn spec_decimal_digits(s: Seq<char>) -> Seq<char> {
    if s.len() >= 1 && s[0] == '+' {
        s.drop_first()
    } else {
        s
    }
}

/// Unsigned decimal parsing as the catalogue loader needs it: an optional
/// leading plus, then one or more digits, with the value within u32 range.
pub open spec fn spec_parse_u32(s: Seq<char>) -> Option<u32> {
    let digits = spec_decimal_digits(s);
    if spec_is_digits(digits) && spec_digits_value(digits) <= u32::MAX {
        Some(spec_digits_value(digits) as u32)
    } else {
        None
    }
}

/// A digit string has a nonnegative value.
pub proof fn lemma_digits_value_nonneg(s: Seq<char>)
    requires
        forall|i: int| 0 <= i < s.len() ==> 48 <= #[trigger] (s[i] as int) <= 57,
    ensures
        spec_digits_value(s) >= 0,
    decreases s.len(),
{
    if s.len() > 0 {
        lemma_digits_value_nonneg(s.drop_last());
    }
}

/// Extending a digit string never shrinks its value.
pub proof fn lemma_digits_value_prefix(s: Seq<char>, n: int)
    requires
        0 <= n <= s.len(),
        forall|i: int| 0 <= i < s.len() ==> 48 <= #[trigger] (s[i] as int) <= 57,
    ensures
        spec_digits_value(s.take(n)) <= spec_digits_value(s),
    decreases s.len() - n,
{
    if n == s.len() {
        assert(s.take(n) =~= s);
    } else {
        lemma_digits_value_prefix(s, n + 1);
        assert(s.take(n + 1).drop_last() =~= s.take(n));
        lemma_digits_value_nonneg(s.take(n));
        assert(spec_digits_value(s.take(n + 1)) == spec_digits_value(s.take(n)) * 10 + (s[n] as int
            - 48));
    }
}

/// Parses an unsigned decimal cell; `None` on anything that is not an
/// optional plus followed by digits, or on a value beyond u32.
pub fn parse_u32_str(s: &str) -> (r: Option<u32>)
    ensures
        r == spec_parse_u32(s@),
{
    let len = s.unicode_len();
    if len == 0 {
        return None;
    }
    let first = s.get_char(0);
    let start: usize = if first == '+' {
        1
    } else {
        0
    };
    if start == len {
        return None;
    }
    let ghost digits = spec_decimal_digits(s@);
    proof {
        assert(digits =~= s@.subrange(start as int, len as int));
    }
    let mut acc: u64 = 0;
    let mut i: usize = start;
    while i < len
        invariant
            start <= i <= len,
            len == s@.len(),
            start < len,
            start == 1 ==> s@[0] == '+',
            start == 0 ==> !(s@.len() >= 1 && s@[0] == '+'),
            digits == spec_decimal_digits(s@),
            digits =~= s@.subrange(start as int, len as int),
            forall|j: int| start <= j < i ==> 48 <= #[trigger] (s@[j] as int) <= 57,
            acc == spec_digits_value(digits.take(i - start)),
            acc <= u32::MAX,
        decreases len - i,
    {
        let c = s.get_char(i);
        let cv = c as u32;
        if !(48 <= cv && cv <= 57) {
            assert(!spec_is_digits(digits)) by {
                assert(digits[i - start] == s@[i as int]);
            }
            return None;
        }
        acc = acc * 10 + ((cv - 48) as u64);
        proof {
            assert(digits.take(i - start + 1).drop_last() =~= digits.take(i - start));
            assert(digits.take(i - start + 1).last() == s@[i as int]);
        }
        if acc > (u32::MAX as u64) {
            proof {
                if spec_is_digits(digits) {
                    lemma_digits_value_prefix(digits, i - start + 1);
                }
            }
            return None;
        }
        i = i + 1;
    }
    proof {
        assert(digits.take(i - start) =~= digits);
        assert(spec_is_digits(digits));
    }
    Some(acc as u32)
}

/// The two boolean literals a catalogue cell may hold.
pub open spec fn spec_parse_bool(s: Seq<char>) -> Option<bool> {
    if s == "true"@ {
        Some(true)
    } else if s == "false"@ {
        Some(false)
    } else {
        None
    }
}

/// Parses a boolean cell: exactly "true" or "false".
pub fn parse_bool_str(s: &str) -> (r: Option<bool>)
    ensures
        r == spec_parse_bool(s@),
{
    let owned: String = s.to_owned();
    let lit_true: String = String::from_str("true");
    let lit_false: String = String::from_str("false");
    if owned == lit_true {
        Some(true)
    } else if owned == lit_false {
        Some(false)
    } else {
        None
    }
}

/// The units that carry the given verbose name.
pub open spec fn pred_named(name: Seq<char>) -> spec_fn(Crop) -> bool {
    |c: Crop| c.verbose_name@ == name
}

/// Whether some group entry carries the given name.
pub open spec fn spec_groups_contain(groups: Seq<(String, u32)>, name: Seq<char>) -> bool
    decreases groups.len(),
{
    if groups.len() == 0 {
        false
    } else {
        groups[0].0@ == name || spec_groups_contain(groups.drop_first(), name)
    }
}

/// Appending a group entry extends the contained names by exactly its name.
pub proof fn lemma_groups_contain_push(
    groups: Seq<(String, u32)>,
    g: (String, u32),
    name: Seq<char>,
)
    ensures
        spec_groups_contain(groups.push(g), name) == (spec_groups_contain(groups, name) || g.0@
            == name),
    decreases groups.len(),
{
    let pushed = groups.push(g);
    assert(pushed.len() == groups.len() + 1);
    if groups.len() == 0 {
        assert(pushed[0] == g);
        assert(pushed.drop_first() =~= Seq::<(String, u32)>::empty());
        assert(!spec_groups_contain(pushed.drop_first(), name));
        assert(spec_groups_contain(pushed, name) == (pushed[0].0@ == name
            || spec_groups_contain(pushed.drop_first(), name)));
        assert(!spec_groups_contain(groups, name));
    } else {
        assert(pushed[0] == groups[0]);
        assert(pushed.drop_first() =~= groups.drop_first().push(g));
        lemma_groups_contain_push(groups.drop_first(), g, name);
        assert(spec_groups_contain(pushed.drop_first(), name) == (spec_groups_contain(
            groups.drop_first(),
            name,
        ) || g.0@ == name));
        assert(spec_groups_contain(pushed, name) == (pushed[0].0@ == name
            || spec_groups_contain(pushed.drop_first(), name)));
        assert(spec_groups_contain(groups, name) == (groups[0].0@ == name
            || spec_groups_contain(groups.drop_first(), name)));
    }
}

/// Every entry's name is contained.
pub proof fn lemma_groups_contain_at(groups: Seq<(String, u32)>, p: int)
    requires
        0 <= p < groups.len(),
    ensures
        spec_groups_contain(groups, groups[p].0@),
    decreases groups.len(),
{
    if p > 0 {
        lemma_groups_contain_at(groups.drop_first(), p - 1);
        assert(groups.drop_first()[p - 1] == groups[p]);
    }
}

/// A contained name stands at some entry.
pub proof fn lemma_groups_contain_witness(groups: Seq<(String, u32)>, name: Seq<char>) -> (p: int)
    requires
        spec_groups_contain(groups, name),
    ensures
        0 <= p < groups.len() && groups[p].0@ == name,
    decreases groups.len(),
{
    if groups[0].0@ == name {
        0
    } else {
        let q = lemma_groups_contain_witness(groups.drop_first(), name);
        assert(groups.drop_first()[q] == groups[q + 1]);
        q + 1
    }
}

/// Containment reads the names alone: entries with equal names contain the
/// same names, whatever their counts.
pub proof fn lemma_groups_contain_names_only(
    a: Seq<(String, u32)>,
    b: Seq<(String, u32)>,
    name: Seq<char>,
)
    requires
        a.len() == b.len(),
        forall|j: int| 0 <= j < a.len() ==> (#[trigger] a[j]).0@ == b[j].0@,
    ensures
        spec_groups_contain(a, name) == spec_groups_contain(b, name),
    decreases a.len(),
{
    if a.len() > 0 {
        assert(forall|j: int|
            0 <= j < a.drop_first().len() ==> (#[trigger] a.drop_first()[j]).0@ == a[j + 1].0@
                && b.drop_first()[j].0@ == b[j + 1].0@);
        lemma_groups_contain_names_only(a.drop_first(), b.drop_first(), name);
    }
}

/// One more unit steps a prefix count by whether it matches.
pub proof fn lemma_count_take_step(s: Seq<Crop>, n: int, f: spec_fn(Crop) -> bool)
    requires
        0 <= n < s.len(),
    ensures
        count_matching(s.take(n + 1), f) == count_matching(s.take(n), f) + (if f(s[n]) {
            1int
        } else {
            0int
        }),
{
    assert(s.take(n + 1).drop_last() =~= s.take(n));
    assert(s.take(n + 1).last() == s[n]);
}

/// Groups the units by verbose name: one entry per distinct name, counting
/// exactly the units of the collection that bear it, and every unit's name
/// has its entry.
pub fn group_crops(crops: &Vec<Crop>) -> (groups: Vec<(String, u32)>)
    requires
        crops@.len() <= u32::MAX,
    ensures
        forall|p: int|
            0 <= p < groups@.len() ==> (#[trigger] groups@[p]).1 as int == count_matching(
                crops@,
                pred_named(groups@[p].0@),
            ),
        forall|p: int, q: int| 0 <= p < q < groups@.len() ==> groups@[p].0@ != groups@[q].0@,
        forall|i: int|
            0 <= i < crops@.len() ==> spec_groups_contain(
                groups@,
                (#[trigger] crops@[i]).verbose_name@,
            ),
{
    let n = crops.len();
    let mut groups: Vec<(String, u32)> = Vec::new();
    let mut i: usize = 0;
    while i < n
        invariant
            i <= n,
            n == crops@.len(),
            n <= u32::MAX,
            forall|p: int|
                0 <= p < groups@.len() ==> (#[trigger] groups@[p]).1 as int == count_matching(
                    crops@.take(i as int),
                    pred_named(groups@[p].0@),
                ),
            forall|p: int, q: int| 0 <= p < q < groups@.len() ==> groups@[p].0@ != groups@[q].0@,
            forall|i2: int|
                0 <= i2 < i ==> spec_groups_contain(groups@, (#[trigger] crops@[i2]).verbose_name@),
            forall|name: Seq<char>|
                !spec_groups_contain(groups@, name) ==> count_matching(
                    crops@.take(i as int),
                    #[trigger] pred_named(name),
                ) == 0,
        decreases n - i,
    {
        let name = &crops[i].verbose_name;
        let m = groups.len();
        let mut p: usize = 0;
        let mut found = false;
        while p < m && !found
            invariant
                p <= m,
                m == groups@.len(),
                i < n,
                n == crops@.len(),
                name@ == crops@[i as int].verbose_name@,
                !found ==> forall|q: int| 0 <= q < p ==> (#[trigger] groups@[q]).0@ != name@,
                found ==> p < m && groups@[p as int].0@ == name@,
            decreases m - p + if found {
                0int
            } else {
                1int
            },
        {
            if groups[p].0 == *name {
                found = true;
            } else {
                p = p + 1;
            }
        }
        let ghost old_groups = groups@;
        let ghost cname = crops@[i as int].verbose_name@;
        if found {
            let entry_name = groups[p].0.clone();
            let entry_count = groups[p].1;
            proof {
                lemma_count_bounds(crops@.take(i as int), pred_named(cname));
            }
            groups[p] = (entry_name, entry_count + 1);
            proof {
                assert(forall|j: int|
                    0 <= j < old_groups.len() ==> (#[trigger] old_groups[j]).0@ == groups@[j].0@);
                assert forall|pp: int| 0 <= pp < groups@.len() implies (#[trigger] groups@[pp]).1
                    as int == count_matching(crops@.take(i + 1), pred_named(groups@[pp].0@)) by {
                    lemma_count_take_step(crops@, i as int, pred_named(groups@[pp].0@));
                };
                assert forall|name2: Seq<char>|
                    !spec_groups_contain(groups@, name2) implies count_matching(
                    crops@.take(i + 1),
                    #[trigger] pred_named(name2),
                ) == 0 by {
                    lemma_groups_contain_names_only(old_groups, groups@, name2);
                    lemma_groups_contain_at(groups@, p as int);
                    lemma_count_take_step(crops@, i as int, pred_named(name2));
                };
                assert forall|i2: int| 0 <= i2 < i + 1 implies spec_groups_contain(
                    groups@,
                    (#[trigger] crops@[i2]).verbose_name@,
                ) by {
                    lemma_groups_contain_names_only(
                        old_groups,
                        groups@,
                        crops@[i2].verbose_name@,
                    );
                    if i2 == i as int {
                        lemma_groups_contain_at(groups@, p as int);
                    }
                };
            }
        } else {
            let new_name = name.clone();
            groups.push((new_name, 1));
            proof {
                let g = groups@.last();
                assert(groups@ == old_groups.push(g));
                assert(g.0@ == cname);
                assert(!spec_groups_contain(old_groups, cname)) by {
                    if spec_groups_contain(old_groups, cname) {
                        let q = lemma_groups_contain_witness(old_groups, cname);
                        assert(old_groups[q].0@ != cname);
                    }
                };
                assert forall|pp: int| 0 <= pp < groups@.len() implies (#[trigger] groups@[pp]).1
                    as int == count_matching(crops@.take(i + 1), pred_named(groups@[pp].0@)) by {
                    lemma_count_take_step(crops@, i as int, pred_named(groups@[pp].0@));
                    if pp < groups@.len() - 1 {
                        assert(groups@[pp] == old_groups[pp]);
                        lemma_groups_contain_at(old_groups, pp);
                    }
                };
                assert forall|p2: int, q2: int|
                    0 <= p2 < q2 < groups@.len() implies groups@[p2].0@ != groups@[q2].0@ by {
                    if q2 == groups@.len() - 1 {
                        assert(groups@[p2] == old_groups[p2]);
                        lemma_groups_contain_at(old_groups, p2);
                    }
                };
                assert forall|name2: Seq<char>|
                    !spec_groups_contain(groups@, name2) implies count_matching(
                    crops@.take(i + 1),
                    #[trigger] pred_named(name2),
                ) == 0 by {
                    lemma_groups_contain_push(old_groups, g, name2);
                    lemma_count_take_step(crops@, i as int, pred_named(name2));
                };
                assert forall|i2: int| 0 <= i2 < i + 1 implies spec_groups_contain(
                    groups@,
                    (#[trigger] crops@[i2]).verbose_name@,
                ) by {
                    lemma_groups_contain_push(old_groups, g, crops@[i2].verbose_name@);
                };
            }
        }
        i = i + 1;
    }
    proof {
        assert(crops@.take(n as int) =~= crops@);
    }
    groups
}

} // verus!
