//! A verified reader for the JSON subset the upstream API emits.
//!
//! The grammar is JSON with two documented restrictions that match what the
//! upstream endpoints produce: numbers carry no exponent and at most twelve
//! integer digits, and strings carry no backslash escapes. Numbers are read
//! into fixed point, millionths of a unit, with fraction digits beyond the
//! sixth discarded. Objects keep their members in wire order; a lookup takes
//! the first member with the asked-for name.
//!
//! The grammar is stated once, as spec functions over the character
//! sequence; the reader is proved to return exactly what the grammar says,
//! and to fail exactly where the grammar has no parse.

use vstd::prelude::*;
use vstd::string::StrSliceExecFns;
use vstd::string::StringExecFns;
use crate::strutil::{spec_is_digit, spec_num, spec_digit_run, lemma_digit_run_len,
    spec_all_digits, read_digit, expect_char};
use crate::fixed::MAX_ABS;

verus! {

/// A JSON document tree. Numbers are held in millionths of a unit.
pub enum JsonValue {
    Null,
    Bool(bool),
    Num(i64),
    Str(String),
    Arr(Vec<JsonValue>),
    Obj(Vec<(String, JsonValue)>),
}

/// The mathematical shape of a JSON tree.
pub enum JsonModel {
    Null,
    Bool(bool),
    Num(int),
    Str(Seq<char>),
    Arr(Seq<JsonModel>),
    Obj(Seq<JsonMember>),
}

/// One member of an object in the mathematical shape.
pub struct JsonMember {
    pub name: Seq<char>,
    pub value: JsonModel,
}

impl View for JsonValue {
    type V = JsonModel;

    open spec fn view(&self) -> JsonModel
        decreases self,
    {
        match self {
            JsonValue::Null => JsonModel::Null,
            JsonValue::Bool(b) => JsonModel::Bool(*b),
            JsonValue::Num(n) => JsonModel::Num(*n as int),
            JsonValue::Str(s) => JsonModel::Str(s@),
            JsonValue::Arr(v) => JsonModel::Arr(
                Seq::new(
                    v@.len(),
                    |k: int|
                        if 0 <= k < v@.len() {
                            v@[k].view()
                        } else {
                            JsonModel::Null
                        },
                ),
            ),
            JsonValue::Obj(v) => JsonModel::Obj(
                Seq::new(
                    v@.len(),
                    |k: int|
                        if 0 <= k < v@.len() {
                            JsonMember { name: v@[k].0@, value: v@[k].1.view() }
                        } else {
                            JsonMember { name: Seq::empty(), value: JsonModel::Null }
                        },
                ),
            ),
        }
    }
}

/// Whether a character is JSON whitespace.
pub open spec fn spec_is_ws(c: char) -> bool {
    c == ' ' || c == '\t' || c == '\n' || c == '\r'
}

/// The first position at or after `i` that does not hold whitespace.
pub open spec fn spec_skip_ws(s: Seq<char>, i: int) -> int
    decreases s.len() - i,
{
    if 0 <= i < s.len() && spec_is_ws(s[i]) {
        spec_skip_ws(s, i + 1)
    } else {
        i
    }
}

/// Ten to the `n`.
pub open spec fn spec_pow10(n: nat) -> int
    decreases n,
{
    if n == 0 {
        1
    } else {
        10 * spec_pow10((n - 1) as nat)
    }
}

/// The millionths carried by a fraction of `f` digits starting at `p`: the
/// first six digits, right-padded with zeros; digits beyond the sixth are
/// discarded.
pub open spec fn spec_frac_micro(s: Seq<char>, p: int, f: int) -> int {
    if f >= 6 {
        spec_num(s, p, p + 6)
    } else {
        spec_num(s, p, p + f) * spec_pow10((6 - f) as nat)
    }
}

/// The number starting at `i`, as (value in millionths, end position):
/// an optional minus, then one to twelve integer digits with no superfluous
/// leading zero, then an optional point and at least one fraction digit.
pub open spec fn spec_parse_number(s: Seq<char>, i: int) -> Option<(int, int)> {
    let neg = 0 <= i < s.len() && s[i] == '-';
    let j = if neg { i + 1 } else { i };
    let k = spec_digit_run(s, j);
    if k == 0 || k > 12 || (k > 1 && s[j] == '0') {
        None
    } else {
        let intval = spec_num(s, j, j + k);
        let e = j + k;
        if e < s.len() && s[e] == '.' {
            let f = spec_digit_run(s, e + 1);
            if f == 0 {
                None
            } else {
                let v = intval * 1_000_000 + spec_frac_micro(s, e + 1, f);
                Some(((if neg { -v } else { v }), e + 1 + f))
            }
        } else {
            let v = intval * 1_000_000;
            Some(((if neg { -v } else { v }), e))
        }
    }
}

/// Whether a character may stand inside a string: anything but a quote, a
/// backslash, or a control character.
pub open spec fn spec_is_strchar(c: char) -> bool {
    c != '"' && c != '\\' && c >= ' '
}

/// How many consecutive string characters stand at and after `i`.
pub open spec fn spec_str_run(s: Seq<char>, i: int) -> int
    decreases s.len() - i,
{
    if 0 <= i < s.len() && spec_is_strchar(s[i]) {
        1 + spec_str_run(s, i + 1)
    } else {
        0
    }
}

/// Law: a string-character run ends exactly at the first other character.
pub proof fn lemma_str_run_len(s: Seq<char>, i: int, j: int)
    requires
        0 <= i <= j <= s.len(),
        forall|k: int| i <= k < j ==> spec_is_strchar(s[k]),
        j == s.len() || !spec_is_strchar(s[j]),
    ensures
        spec_str_run(s, i) == j - i,
    decreases j - i,
{
    if i < j {
        lemma_str_run_len(s, i + 1, j);
    }
}

/// The string starting at `i` (which must hold the opening quote), as
/// (contents, position after the closing quote).
pub open spec fn spec_parse_string(s: Seq<char>, i: int) -> Option<(Seq<char>, int)> {
    if 0 <= i < s.len() && s[i] == '"' {
        let k = spec_str_run(s, i + 1);
        let e = i + 1 + k;
        if e < s.len() && s[e] == '"' {
            Some((s.subrange(i + 1, e), e + 1))
        } else {
            None
        }
    } else {
        None
    }
}

/// The value starting at `i`, leading whitespace allowed, as
/// (tree, end position).
pub open spec fn spec_parse_value(s: Seq<char>, i: int) -> Option<(JsonModel, int)>
    decreases s.len() - i, 0int,
{
    let j = spec_skip_ws(s, i);
    if !(i <= j < s.len()) {
        None
    } else {
        let c = s[j];
        if c == '{' {
            match spec_parse_members(s, j + 1) {
                Option::None => None,
                Option::Some((ms, n)) => Some((JsonModel::Obj(ms), n)),
            }
        } else if c == '[' {
            match spec_parse_elements(s, j + 1) {
                Option::None => None,
                Option::Some((es, n)) => Some((JsonModel::Arr(es), n)),
            }
        } else if c == '"' {
            match spec_parse_string(s, j) {
                Option::None => None,
                Option::Some((cs, n)) => Some((JsonModel::Str(cs), n)),
            }
        } else if c == '-' || spec_is_digit(c) {
            match spec_parse_number(s, j) {
                Option::None => None,
                Option::Some((v, n)) => Some((JsonModel::Num(v), n)),
            }
        } else if c == 't' {
            if j + 4 <= s.len() && s[j + 1] == 'r' && s[j + 2] == 'u' && s[j + 3] == 'e' {
                Some((JsonModel::Bool(true), j + 4))
            } else {
                None
            }
        } else if c == 'f' {
            if j + 5 <= s.len() && s[j + 1] == 'a' && s[j + 2] == 'l' && s[j + 3] == 's' && s[j + 4]
                == 'e' {
                Some((JsonModel::Bool(false), j + 5))
            } else {
                None
            }
        } else if c == 'n' {
            if j + 4 <= s.len() && s[j + 1] == 'u' && s[j + 2] == 'l' && s[j + 3] == 'l' {
                Some((JsonModel::Null, j + 4))
            } else {
                None
            }
        } else {
            None
        }
    }
}

/// The members of an object whose opening brace stands just before `i`, as
/// (members, position after the closing brace).
pub open spec fn spec_parse_members(s: Seq<char>, i: int) -> Option<(Seq<JsonMember>, int)>
    decreases s.len() - i, 2int,
{
    if !(0 <= i <= s.len()) {
        None
    } else {
        let j = spec_skip_ws(s, i);
        if !(i <= j < s.len()) {
            None
        } else if s[j] == '}' {
            Some((Seq::empty(), j + 1))
        } else {
            match spec_parse_member_list(s, i) {
                Option::None => None,
                Option::Some((ms, n)) => Some((ms, n)),
            }
        }
    }
}

/// A nonempty comma-separated member list starting at `i`, as
/// (members, position after the closing brace).
pub open spec fn spec_parse_member_list(s: Seq<char>, i: int) -> Option<(Seq<JsonMember>, int)>
    decreases s.len() - i, 1int,
{
    if !(0 <= i <= s.len()) {
        None
    } else {
        let j = spec_skip_ws(s, i);
        if !(i <= j <= s.len()) {
            None
        } else {
        match spec_parse_string(s, j) {
            Option::None => None,
            Option::Some((key, k)) => {
                let m = spec_skip_ws(s, k);
                if !(j < m < s.len() && s[m] == ':') {
                    None
                } else {
                    match spec_parse_value(s, m + 1) {
                        Option::None => None,
                        Option::Some((v, n)) => {
                            let p = spec_skip_ws(s, n);
                            if !(i < p < s.len()) {
                                None
                            } else if s[p] == '}' {
                                Some((seq![JsonMember { name: key, value: v }], p + 1))
                            } else if s[p] == ',' {
                                match spec_parse_member_list(s, p + 1) {
                                    Option::None => None,
                                    Option::Some((ms, q)) => Some(
                                        (seq![JsonMember { name: key, value: v }] + ms, q),
                                    ),
                                }
                            } else {
                                None
                            }
                        },
                    }
                }
            },
        }
        }
    }
}

/// The elements of an array whose opening bracket stands just before `i`,
/// as (elements, position after the closing bracket).
pub open spec fn spec_parse_elements(s: Seq<char>, i: int) -> Option<(Seq<JsonModel>, int)>
    decreases s.len() - i, 2int,
{
    if !(0 <= i <= s.len()) {
        None
    } else {
        let j = spec_skip_ws(s, i);
        if !(i <= j < s.len()) {
            None
        } else if s[j] == ']' {
            Some((Seq::empty(), j + 1))
        } else {
            match spec_parse_element_list(s, i) {
                Option::None => None,
                Option::Some((es, n)) => Some((es, n)),
            }
        }
    }
}

/// A nonempty comma-separated element list starting at `i`, as
/// (elements, position after the closing bracket).
pub open spec fn spec_parse_element_list(s: Seq<char>, i: int) -> Option<(Seq<JsonModel>, int)>
    decreases s.len() - i, 1int,
{
    if !(0 <= i <= s.len()) {
        None
    } else {
        match spec_parse_value(s, i) {
            Option::None => None,
            Option::Some((v, n)) => {
                let p = spec_skip_ws(s, n);
                if !(i < p < s.len()) {
                    None
                } else if s[p] == ']' {
                    Some((seq![v], p + 1))
                } else if s[p] == ',' {
                    match spec_parse_element_list(s, p + 1) {
                        Option::None => None,
                        Option::Some((es, q)) => Some((seq![v] + es, q)),
                    }
                } else {
                    None
                }
            },
        }
    }
}

/// The tree of a whole document: one value with nothing but whitespace
/// around it.
pub open spec fn spec_parse_document(s: Seq<char>) -> Option<JsonModel> {
    match spec_parse_value(s, 0) {
        Option::None => None,
        Option::Some((v, n)) => {
            if spec_skip_ws(s, n) == s.len() {
                Some(v)
            } else {
                None
            }
        },
    }
}


/// Law: a nonnegative power of ten.
pub proof fn lemma_pow10_pos(n: nat)
    ensures
        spec_pow10(n) >= 1,
    decreases n,
{
    if n > 0 {
        lemma_pow10_pos((n - 1) as nat);
    }
}

/// Law: powers of ten grow with the exponent.
pub proof fn lemma_pow10_mono(a: nat, b: nat)
    requires
        a <= b,
    ensures
        spec_pow10(a) <= spec_pow10(b),
    decreases b,
{
    if a < b {
        lemma_pow10_mono(a, (b - 1) as nat);
        lemma_pow10_pos((b - 1) as nat);
    }
}

/// Law: `j - i` digits make a value below ten to the `j - i`.
pub proof fn lemma_num_bound(s: Seq<char>, i: int, j: int)
    requires
        0 <= i <= j <= s.len(),
        spec_all_digits(s, i, j),
    ensures
        0 <= spec_num(s, i, j) < spec_pow10((j - i) as nat),
    decreases j - i,
{
    if i < j {
        lemma_num_bound(s, i, j - 1);
    } else {
        assert(spec_pow10(0) == 1);
    }
}

/// Skips whitespace from `i`.
fn skip_ws(s: &str, i: usize) -> (r: usize)
    requires
        i <= s@.len(),
    ensures
        r as int == spec_skip_ws(s@, i as int),
        i <= r <= s@.len(),
    decreases s@.len() - i,
{
    let len = s.unicode_len();
    if i < len {
        let c = s.get_char(i);
        if c == ' ' || c == '\t' || c == '\n' || c == '\r' {
            return skip_ws(s, i + 1);
        }
    }
    i
}

/// Ten to the `n`, for small `n`.
fn pow10(n: usize) -> (r: u64)
    requires
        n <= 6,
    ensures
        r as int == spec_pow10(n as nat),
        r <= 1_000_000,
{
    proof {
        reveal_with_fuel(spec_pow10, 8);
    }
    if n == 0 {
        1
    } else if n == 1 {
        10
    } else if n == 2 {
        100
    } else if n == 3 {
        1_000
    } else if n == 4 {
        10_000
    } else if n == 5 {
        100_000
    } else {
        1_000_000
    }
}

/// The value of the digits of `s` in `[from, to)`.
fn digits_value(s: &str, from: usize, to: usize) -> (r: u64)
    requires
        from <= to <= s@.len(),
        to - from <= 12,
        spec_all_digits(s@, from as int, to as int),
    ensures
        r as int == spec_num(s@, from as int, to as int),
        r < spec_pow10((to - from) as nat),
{
    let mut acc: u64 = 0;
    let mut p = from;
    while p < to
        invariant
            from <= p <= to <= s@.len(),
            to - from <= 12,
            spec_all_digits(s@, from as int, to as int),
            acc as int == spec_num(s@, from as int, p as int),
            acc < spec_pow10((p - from) as nat),
        decreases to - p,
    {
        proof {
            lemma_pow10_mono((p - from + 1) as nat, 12);
            reveal_with_fuel(spec_pow10, 13);
        }
        let d = match read_digit(s, p) {
            Some(d) => d,
            Option::None => {
                proof {
                    assert(spec_is_digit(s@[p as int]));
                }
                0
            },
        };
        acc = acc * 10 + d as u64;
        p += 1;
    }
    acc
}

/// Reads the number at `i`.
#[verifier::rlimit(50)]
fn parse_number(s: &str, i: usize) -> (r: Option<(i64, usize)>)
    requires
        i <= s@.len(),
    ensures
        match r {
            Option::Some((v, n)) => spec_parse_number(s@, i as int) == Some((v as int, n as int))
                && i < n <= s@.len() && -MAX_ABS <= v <= MAX_ABS,
            Option::None => spec_parse_number(s@, i as int) is None,
        },
{
    let len = s.unicode_len();
    let neg = i < len && expect_char(s, i, '-');
    let j = if neg { i + 1 } else { i };
    let mut e = j;
    while e < len && read_digit(s, e).is_some()
        invariant
            j <= e <= len,
            len == s@.len(),
            spec_all_digits(s@, j as int, e as int),
        decreases len - e,
    {
        e += 1;
    }
    proof {
        lemma_digit_run_len(s@, j as int, e as int);
    }
    let k = e - j;
    if k == 0 || k > 12 {
        return None;
    }
    if k > 1 && expect_char(s, j, '0') {
        return None;
    }
    let intval = digits_value(s, j, e);
    proof {
        lemma_pow10_mono((e - j) as nat, 12);
        reveal_with_fuel(spec_pow10, 13);
        assert(intval < 1_000_000_000_000);
    }
    if e < len && expect_char(s, e, '.') {
        let fstart = e + 1;
        let mut q = fstart;
        while q < len && read_digit(s, q).is_some()
            invariant
                fstart <= q <= len,
                len == s@.len(),
                spec_all_digits(s@, fstart as int, q as int),
            decreases len - q,
        {
            q += 1;
        }
        proof {
            lemma_digit_run_len(s@, fstart as int, q as int);
        }
        let f = q - fstart;
        if f == 0 {
            return None;
        }
        let t = if f >= 6 { 6 } else { f };
        let fval = digits_value(s, fstart, fstart + t);
        proof {
            lemma_pow10_mono((t) as nat, 6);
            reveal_with_fuel(spec_pow10, 8);
            assert(fval < 1_000_000);
        }
        let p10 = pow10(6 - t);
        proof {
            vstd::arithmetic::mul::lemma_mul_upper_bound(
                fval as int,
                999_999,
                p10 as int,
                1_000_000,
            );
        }
        let micro = fval * p10;
        proof {
            reveal_with_fuel(spec_pow10, 8);
            assert(micro as int == spec_frac_micro(s@, fstart as int, f as int)) by {
                if f >= 6 {
                } else {
                    assert(fval as int == spec_num(s@, fstart as int, fstart + f));
                }
            }
            assert(micro < 1_000_000) by {
                if f >= 6 {
                } else {
                    lemma_num_bound(s@, fstart as int, fstart + f);
                    lemma_pow10_pos((6 - f) as nat);
                    vstd::arithmetic::mul::lemma_mul_strict_inequality(
                        fval as int,
                        spec_pow10(f as nat),
                        spec_pow10((6 - f) as nat),
                    );
                    assert(spec_pow10(f as nat) * spec_pow10((6 - f) as nat) <= 1_000_000) by {
                        lemma_pow10_mul(f as nat, (6 - f) as nat);
                    }
                }
            }
        }
        let v = intval * 1_000_000 + micro;
        let val: i64 = if neg {
            -(v as i64)
        } else {
            v as i64
        };
        Some((val, q))
    } else {
        let v = intval * 1_000_000;
        let val: i64 = if neg {
            -(v as i64)
        } else {
            v as i64
        };
        Some((val, e))
    }
}

/// Law: powers of ten multiply by adding exponents.
pub proof fn lemma_pow10_mul(a: nat, b: nat)
    ensures
        spec_pow10(a) * spec_pow10(b) == spec_pow10((a + b) as nat),
    decreases a,
{
    if a > 0 {
        lemma_pow10_mul((a - 1) as nat, b);
        assert(spec_pow10(a) == 10 * spec_pow10((a - 1) as nat));
        assert((10 * spec_pow10((a - 1) as nat)) * spec_pow10(b) == 10 * (spec_pow10(
            (a - 1) as nat,
        ) * spec_pow10(b))) by (nonlinear_arith);
    }
}

/// Whether the character at `i` may stand inside a string.
fn is_strchar_at(s: &str, i: usize) -> (r: bool)
    requires
        i < s@.len(),
    ensures
        r == spec_is_strchar(s@[i as int]),
{
    let c = s.get_char(i);
    c != '"' && c != '\\' && c >= ' '
}

/// Reads the quoted string at `i`.
fn parse_string(s: &str, i: usize) -> (r: Option<(String, usize)>)
    requires
        i <= s@.len(),
    ensures
        match r {
            Option::Some((cs, n)) => spec_parse_string(s@, i as int) == Some((cs@, n as int)) && i
                < n <= s@.len(),
            Option::None => spec_parse_string(s@, i as int) is None,
        },
{
    let len = s.unicode_len();
    if !(i < len && expect_char(s, i, '"')) {
        return None;
    }
    let mut e = i + 1;
    while e < len && is_strchar_at(s, e)
        invariant
            i + 1 <= e <= len,
            len == s@.len(),
            forall|k: int| i + 1 <= k < e ==> spec_is_strchar(s@[k]),
        decreases len - e,
    {
        e += 1;
    }
    proof {
        lemma_str_run_len(s@, i + 1, e as int);
    }
    if e < len && expect_char(s, e, '"') {
        let body = s.substring_char(i + 1, e);
        Some((String::from_str(body), e + 1))
    } else {
        None
    }
}

/// Reads the value at `i`, leading whitespace allowed.
pub fn parse_value(s: &str, i: usize) -> (r: Option<(JsonValue, usize)>)
    requires
        i <= s@.len(),
    ensures
        match r {
            Option::Some((v, n)) => spec_parse_value(s@, i as int) == Some((v@, n as int)) && i < n
                <= s@.len(),
            Option::None => spec_parse_value(s@, i as int) is None,
        },
    decreases s@.len() - i, 0int,
{
    let len = s.unicode_len();
    let j = skip_ws(s, i);
    if !(j < len) {
        return None;
    }
    let c = s.get_char(j);
    if c == '{' {
        match parse_members(s, j + 1) {
            Option::None => None,
            Option::Some((ms, n)) => {
                proof {
                    let sm0 = spec_parse_members(s@, j + 1)->Some_0.0;
                    let o = JsonValue::Obj(ms)@->Obj_0;
                    assert forall|t: int| 0 <= t < o.len() implies o[t] == sm0[t] by {
                        assert(o[t] == JsonMember { name: ms@[t].0@, value: ms@[t].1@ });
                    }
                    assert(o =~= sm0);
                }
                Some((JsonValue::Obj(ms), n))
            },
        }
    } else if c == '[' {
        match parse_elements(s, j + 1) {
            Option::None => None,
            Option::Some((es, n)) => {
                proof {
                    let se0 = spec_parse_elements(s@, j + 1)->Some_0.0;
                    let a = JsonValue::Arr(es)@->Arr_0;
                    assert forall|t: int| 0 <= t < a.len() implies a[t] == se0[t] by {
                        assert(a[t] == es@[t]@);
                    }
                    assert(a =~= se0);
                }
                Some((JsonValue::Arr(es), n))
            },
        }
    } else if c == '"' {
        match parse_string(s, j) {
            Option::None => None,
            Option::Some((cs, n)) => Some((JsonValue::Str(cs), n)),
        }
    } else if c == '-' || ('0' <= c && c <= '9') {
        match parse_number(s, j) {
            Option::None => None,
            Option::Some((v, n)) => Some((JsonValue::Num(v), n)),
        }
    } else if c == 't' {
        if len - j >= 4 && expect_char(s, j + 1, 'r') && expect_char(s, j + 2, 'u') && expect_char(
            s,
            j + 3,
            'e',
        ) {
            Some((JsonValue::Bool(true), j + 4))
        } else {
            None
        }
    } else if c == 'f' {
        if len - j >= 5 && expect_char(s, j + 1, 'a') && expect_char(s, j + 2, 'l') && expect_char(
            s,
            j + 3,
            's',
        ) && expect_char(s, j + 4, 'e') {
            Some((JsonValue::Bool(false), j + 5))
        } else {
            None
        }
    } else if c == 'n' {
        if len - j >= 4 && expect_char(s, j + 1, 'u') && expect_char(s, j + 2, 'l') && expect_char(
            s,
            j + 3,
            'l',
        ) {
            Some((JsonValue::Null, j + 4))
        } else {
            None
        }
    } else {
        None
    }
}

/// Reads the members of an object whose opening brace stands just before
/// `i`.
fn parse_members(s: &str, i: usize) -> (r: Option<(Vec<(String, JsonValue)>, usize)>)
    requires
        i <= s@.len(),
    ensures
        match r {
            Option::Some((ms, n)) => (spec_parse_members(s@, i as int) matches Some(sm) && sm.1
                == n as int && sm.0.len() == ms@.len() && (forall|t: int|
                0 <= t < ms@.len() ==> #[trigger] sm.0[t] == (JsonMember {
                    name: ms@[t].0@,
                    value: ms@[t].1@,
                })) && i < n <= s@.len()),
            Option::None => spec_parse_members(s@, i as int) is None,
        },
    decreases s@.len() - i, 2int,
{
    let len = s.unicode_len();
    let j = skip_ws(s, i);
    if !(j < len) {
        return None;
    }
    if expect_char(s, j, '}') {
        let ms: Vec<(String, JsonValue)> = Vec::new();
        return Some((ms, j + 1));
    }
    parse_member_list(s, i)
}

/// Reads a nonempty member list starting at `i`.
fn parse_member_list(s: &str, i: usize) -> (r: Option<(Vec<(String, JsonValue)>, usize)>)
    requires
        i <= s@.len(),
    ensures
        match r {
            Option::Some((ms, n)) => (spec_parse_member_list(s@, i as int) matches Some(sm) && sm.1
                == n as int && sm.0.len() == ms@.len() && (forall|t: int|
                0 <= t < ms@.len() ==> #[trigger] sm.0[t] == (JsonMember {
                    name: ms@[t].0@,
                    value: ms@[t].1@,
                })) && i < n <= s@.len()),
            Option::None => spec_parse_member_list(s@, i as int) is None,
        },
    decreases s@.len() - i, 1int,
{
    let len = s.unicode_len();
    let j = skip_ws(s, i);
    let (key, k) = match parse_string(s, j) {
        Option::None => {
            return None;
        },
        Option::Some(x) => x,
    };
    let m = skip_ws(s, k);
    if !(m < len && expect_char(s, m, ':')) {
        return None;
    }
    match parse_value(s, m + 1) {
        Option::None => None,
        Option::Some((v, n)) => {
            let p = skip_ws(s, n);
            if !(p < len) {
                return None;
            }
            if expect_char(s, p, '}') {
                let mut ms: Vec<(String, JsonValue)> = Vec::new();
                ms.push((key, v));
                proof {
                    assert(spec_parse_member_list(s@, i as int) matches Some(sm) && sm.0 =~= seq![
                        JsonMember { name: key@, value: v@ },
                    ]);
                }
                Some((ms, p + 1))
            } else if expect_char(s, p, ',') {
                match parse_member_list(s, p + 1) {
                    Option::None => None,
                    Option::Some((rest, q)) => {
                        let ghost prev = spec_parse_member_list(s@, p + 1)->Some_0.0;
                        let ghost rest_view = rest@;
                        let mut ms = rest;
                        ms.insert(0, (key, v));
                        proof {
                            assert(ms@ =~= seq![(key, v)] + rest_view);
                            let sm0 = spec_parse_member_list(s@, i as int)->Some_0.0;
                            assert(sm0 =~= seq![JsonMember { name: key@, value: v@ }] + prev);
                            assert forall|t: int| 0 <= t < ms@.len() implies #[trigger] sm0[t]
                                == (JsonMember { name: ms@[t].0@, value: ms@[t].1@ }) by {
                                if t == 0 {
                                    assert(ms@[0] == (key, v));
                                    assert(sm0[0] == JsonMember { name: key@, value: v@ });
                                } else {
                                    assert(ms@[t] == rest_view[t - 1]);
                                    assert(sm0[t] == prev[t - 1]);
                                }
                            }
                        }
                        Some((ms, q))
                    },
                }
            } else {
                None
            }
        },
    }
}

/// Reads the elements of an array whose opening bracket stands just before
/// `i`.
fn parse_elements(s: &str, i: usize) -> (r: Option<(Vec<JsonValue>, usize)>)
    requires
        i <= s@.len(),
    ensures
        match r {
            Option::Some((es, n)) => (spec_parse_elements(s@, i as int) matches Some(se) && se.1
                == n as int && se.0.len() == es@.len() && (forall|t: int|
                0 <= t < es@.len() ==> #[trigger] se.0[t] == es@[t]@) && i < n <= s@.len()),
            Option::None => spec_parse_elements(s@, i as int) is None,
        },
    decreases s@.len() - i, 2int,
{
    let len = s.unicode_len();
    let j = skip_ws(s, i);
    if !(j < len) {
        return None;
    }
    if expect_char(s, j, ']') {
        let es: Vec<JsonValue> = Vec::new();
        return Some((es, j + 1));
    }
    parse_element_list(s, i)
}

/// Reads a nonempty element list starting at `i`.
fn parse_element_list(s: &str, i: usize) -> (r: Option<(Vec<JsonValue>, usize)>)
    requires
        i <= s@.len(),
    ensures
        match r {
            Option::Some((es, n)) => (spec_parse_element_list(s@, i as int) matches Some(se)
                && se.1 == n as int && se.0.len() == es@.len() && (forall|t: int|
                0 <= t < es@.len() ==> #[trigger] se.0[t] == es@[t]@) && i < n <= s@.len()),
            Option::None => spec_parse_element_list(s@, i as int) is None,
        },
    decreases s@.len() - i, 1int,
{
    let len = s.unicode_len();
    match parse_value(s, i) {
        Option::None => None,
        Option::Some((v, n)) => {
            let p = skip_ws(s, n);
            if !(p < len) {
                return None;
            }
            if expect_char(s, p, ']') {
                let mut es: Vec<JsonValue> = Vec::new();
                es.push(v);
                proof {
                    assert(spec_parse_element_list(s@, i as int) matches Some(se) && se.0 =~= seq![
                        v@,
                    ]);
                }
                Some((es, p + 1))
            } else if expect_char(s, p, ',') {
                match parse_element_list(s, p + 1) {
                    Option::None => None,
                    Option::Some((rest, q)) => {
                        let ghost prev = spec_parse_element_list(s@, p + 1)->Some_0.0;
                        let ghost rest_view = rest@;
                        let mut es = rest;
                        es.insert(0, v);
                        proof {
                            assert(es@ =~= seq![v] + rest_view);
                            let se0 = spec_parse_element_list(s@, i as int)->Some_0.0;
                            assert(se0 =~= seq![v@] + prev);
                            assert forall|t: int| 0 <= t < es@.len() implies #[trigger] se0[t]
                                == es@[t]@ by {
                                if t == 0 {
                                    assert(es@[0] == v);
                                    assert(se0[0] == v@);
                                } else {
                                    assert(es@[t] == rest_view[t - 1]);
                                    assert(se0[t] == prev[t - 1]);
                                }
                            }
                        }
                        Some((es, q))
                    },
                }
            } else {
                None
            }
        },
    }
}

/// Reads a whole document: one value with nothing but whitespace around it.
/// Fails with a schema error exactly where the grammar has no parse.
pub fn parse_document(s: &str) -> (r: Result<JsonValue, crate::errors::WeatherError>)
    ensures
        match r {
            Result::Ok(v) => spec_parse_document(s@) == Some(v@),
            Result::Err(e) => spec_parse_document(s@) is None && e matches
                crate::errors::WeatherError::Schema,
        },
{
    let len = s.unicode_len();
    match parse_value(s, 0) {
        Option::None => Err(crate::errors::WeatherError::Schema),
        Option::Some((v, n)) => {
            let p = skip_ws(s, n);
            if p == len {
                Ok(v)
            } else {
                Err(crate::errors::WeatherError::Schema)
            }
        },
    }
}

} // verus!
