//! Persistent Selection Store codec: the one-line record
//! `"<stable_id>;<notification_handle>"` that carries the last active player
//! and the last notification handle across invocations. Reading the file and
//! writing it back is the caller's concern; this module turns raw text into a
//! record and back, and loading never fails: malformed text yields the empty
//! default record.
use vstd::prelude::*;
use vstd::string::{StrSliceExecFns, StringExecFns};

verus! {

/// A decimal digit character.
pub open spec fn is_dec_digit(c: char) -> bool {
    '0' <= c && c <= '9'
}

/// Every character of `s` is a decimal digit.
pub open spec fn all_dec_digits(s: Seq<char>) -> bool {
    forall|i: int| 0 <= i < s.len() ==> is_dec_digit(#[trigger] s[i])
}

/// Numeric value of a digit sequence, most significant digit first.
pub open spec fn dec_val(s: Seq<char>) -> int
    decreases s.len(),
{
    if s.len() == 0 {
        0
    } else {
        dec_val(s.drop_last()) * 10 + (s.last() as int - '0' as int)
    }
}

/// The digits of a handle field, an optional leading plus sign allowed.
pub open spec fn handle_digits(s: Seq<char>) -> Seq<char> {
    if s.len() > 0 && s[0] == '+' {
        s.drop_first()
    } else {
        s
    }
}

/// The notification handle a record field denotes: after an optional leading
/// plus sign, the field must be a nonempty run of digits in range of the
/// handle type.
pub open spec fn parse_handle_spec(s: Seq<char>) -> Option<u32> {
    let d = handle_digits(s);
    if d.len() > 0 && all_dec_digits(d) && dec_val(d) <= u32::MAX {
        Some(dec_val(d) as u32)
    } else {
        None
    }
}

/// The digit character for `d`.
pub open spec fn dec_digit_char(d: int) -> char
    recommends
        0 <= d < 10,
{
    if d == 0 {
        '0'
    } else if d == 1 {
        '1'
    } else if d == 2 {
        '2'
    } else if d == 3 {
        '3'
    } else if d == 4 {
        '4'
    } else if d == 5 {
        '5'
    } else if d == 6 {
        '6'
    } else if d == 7 {
        '7'
    } else if d == 8 {
        '8'
    } else {
        '9'
    }
}

/// Decimal rendering of a non-negative number, without leading zeros.
pub open spec fn dec_str(n: int) -> Seq<char>
    recommends
        n >= 0,
    decreases n,
{
    if n < 10 {
        seq![dec_digit_char(n)]
    } else {
        dec_str(n / 10) + seq![dec_digit_char(n % 10)]
    }
}

/// Position of the first `;` in `s`, if any.
pub open spec fn first_semi(s: Seq<char>) -> Option<int>
    decreases s.len(),
{
    if s.len() == 0 {
        None
    } else if s[0] == ';' {
        Some(0)
    } else {
        match first_semi(s.drop_first()) {
            Some(i) => Some(i + 1),
            None => None,
        }
    }
}

/// The handle field of the record text: what stands between the first `;`
/// and the second one, or the end.
pub open spec fn field2_of(s: Seq<char>) -> Seq<char>
    recommends
        first_semi(s) is Some,
{
    let i = first_semi(s).unwrap();
    let rest = s.subrange(i + 1, s.len() as int);
    match first_semi(rest) {
        None => rest,
        Some(j) => rest.subrange(0, j),
    }
}

/// The record the raw text of the store file denotes: the part before the
/// first `;` and the handle between the first and second `;` (or the end).
/// Missing or malformed text denotes the empty default record.
pub open spec fn decode_record_spec(s: Seq<char>) -> (Seq<char>, u32) {
    match first_semi(s) {
        None => (Seq::<char>::empty(), 0u32),
        Some(i) => match parse_handle_spec(field2_of(s)) {
            Some(v) => (s.subrange(0, i), v),
            None => (Seq::<char>::empty(), 0u32),
        },
    }
}

/// The text the store writes for a record: the two fields joined by `;`.
pub open spec fn encode_record_spec(id: Seq<char>, handle: u32) -> Seq<char> {
    id + seq![';'] + dec_str(handle as int)
}

/// Where `first_semi` points: at a `;` with none before it, or nowhere when
/// `s` has no `;` at all.
proof fn lemma_first_semi_props(s: Seq<char>)
    ensures
        match first_semi(s) {
            Some(i) => 0 <= i < s.len() && s[i] == ';' && (forall|j: int|
                0 <= j < i ==> s[j] != ';'),
            None => forall|j: int| 0 <= j < s.len() ==> s[j] != ';',
        },
    decreases s.len(),
{
    if s.len() != 0 && s[0] != ';' {
        lemma_first_semi_props(s.drop_first());
        assert forall|j: int| 1 <= j < s.len() implies s[j] == s.drop_first()[j - 1] by {}
    }
}

/// A `;` at `i` with none before it is where `first_semi` points.
proof fn lemma_first_semi_at(s: Seq<char>, i: int)
    requires
        0 <= i < s.len(),
        s[i] == ';',
        forall|j: int| 0 <= j < i ==> s[j] != ';',
    ensures
        first_semi(s) == Some(i),
{
    lemma_first_semi_props(s);
    match first_semi(s) {
        None => {
            assert(s[i] != ';');
        },
        Some(k) => {
            if k < i {
                assert(s[k] != ';');
            } else if i < k {
                assert(s[i] != ';');
            }
        },
    }
}

/// Without any `;`, `first_semi` points nowhere.
proof fn lemma_first_semi_none(s: Seq<char>)
    requires
        forall|j: int| 0 <= j < s.len() ==> s[j] != ';',
    ensures
        first_semi(s) is None,
{
    lemma_first_semi_props(s);
}

/// A rendered number is a nonempty run of digits.
proof fn lemma_dec_str_digits(n: int)
    requires
        n >= 0,
    ensures
        dec_str(n).len() >= 1,
        all_dec_digits(dec_str(n)),
    decreases n,
{
    if n < 10 {
    } else {
        lemma_dec_str_digits(n / 10);
        let s = dec_str(n);
        assert forall|i: int| 0 <= i < s.len() implies is_dec_digit(s[i]) by {
            if i < dec_str(n / 10).len() {
                assert(s[i] == dec_str(n / 10)[i]);
            } else {
                assert(s[i] == dec_digit_char(n % 10));
            }
        }
    }
}

/// Rendering and evaluating a non-negative number round-trips.
proof fn lemma_dec_val_of_dec_str(n: int)
    requires
        n >= 0,
    ensures
        dec_val(dec_str(n)) == n,
    decreases n,
{
    if n < 10 {
        let s = dec_str(n);
        assert(s.len() == 1);
        assert(s.last() == dec_digit_char(n));
        assert(s.drop_last() =~= Seq::<char>::empty());
        assert(dec_val(s.drop_last()) == 0);
        assert(dec_val(s) == dec_val(s.drop_last()) * 10 + (s.last() as int - '0' as int));
        assert(dec_digit_char(n) as int - '0' as int == n);
    } else {
        lemma_dec_val_of_dec_str(n / 10);
        let s = dec_str(n);
        assert(s.drop_last() =~= dec_str(n / 10));
        assert(s.last() == dec_digit_char(n % 10));
        assert(dec_digit_char(n % 10) as int - '0' as int == n % 10);
        vstd::arithmetic::div_mod::lemma_fundamental_div_mod(n, 10);
        assert(dec_val(s) == (n / 10) * 10 + n % 10);
    }
}

/// A run of digits evaluates to a non-negative number.
proof fn lemma_dec_val_nonneg(s: Seq<char>)
    requires
        all_dec_digits(s),
    ensures
        dec_val(s) >= 0,
    decreases s.len(),
{
    if s.len() > 0 {
        assert(all_dec_digits(s.drop_last())) by {
            assert forall|i: int| 0 <= i < s.len() - 1 implies is_dec_digit(
                #[trigger] s.drop_last()[i],
            ) by {
                assert(s.drop_last()[i] == s[i]);
            }
        }
        lemma_dec_val_nonneg(s.drop_last());
    }
}

/// Extending a run of digits never shrinks its value: the value of any
/// prefix bounds the value of the whole from below.
proof fn lemma_dec_val_prefix_le(s: Seq<char>, k: int)
    requires
        all_dec_digits(s),
        0 <= k <= s.len(),
    ensures
        dec_val(s.take(k)) <= dec_val(s),
    decreases s.len() - k,
{
    assert(all_dec_digits(s.take(k))) by {
        assert forall|i: int| 0 <= i < k implies is_dec_digit(#[trigger] s.take(k)[i]) by {
            assert(s.take(k)[i] == s[i]);
        }
    }
    if k == s.len() {
        assert(s.take(k) =~= s);
    } else {
        assert(s.take(k + 1).drop_last() =~= s.take(k));
        assert(s.take(k + 1).last() == s[k]);
        lemma_dec_val_nonneg(s.take(k));
        assert(dec_val(s.take(k + 1)) == dec_val(s.take(k)) * 10 + (s[k] as int - '0' as int));
        lemma_dec_val_prefix_le(s, k + 1);
    }
}

/// The digit string for `d`, shared by the record encoder.
fn digit_str(d: u32) -> (r: &'static str)
    requires
        d < 10,
    ensures
        r@ == seq![dec_digit_char(d as int)],
{
    let r: &'static str = if d == 0 {
        "0"
    } else if d == 1 {
        "1"
    } else if d == 2 {
        "2"
    } else if d == 3 {
        "3"
    } else if d == 4 {
        "4"
    } else if d == 5 {
        "5"
    } else if d == 6 {
        "6"
    } else if d == 7 {
        "7"
    } else if d == 8 {
        "8"
    } else {
        "9"
    };
    proof {
        reveal_strlit("0");
        reveal_strlit("1");
        reveal_strlit("2");
        reveal_strlit("3");
        reveal_strlit("4");
        reveal_strlit("5");
        reveal_strlit("6");
        reveal_strlit("7");
        reveal_strlit("8");
        reveal_strlit("9");
        assert(r@ =~= seq![dec_digit_char(d as int)]);
    }
    r
}

/// Decimal rendering of a notification handle.
fn format_handle(n: u32) -> (r: String)
    ensures
        r@ == dec_str(n as int),
    decreases n,
{
    if n < 10 {
        String::from_str(digit_str(n))
    } else {
        let mut s = format_handle(n / 10);
        s.append(digit_str(n % 10));
        proof {
            assert(s@ =~= dec_str(n as int));
        }
        s
    }
}

/// Renders the record the store persists: stable identifier and notification
/// handle joined by `;`.
pub fn encode_record(id: &str, handle: u32) -> (r: String)
    ensures
        r@ == encode_record_spec(id@, handle),
{
    let mut s = String::from_str(id);
    s.append(";");
    let d = format_handle(handle);
    s.append(d.as_str());
    proof {
        reveal_strlit(";");
        assert(";"@ =~= seq![';']);
        assert(s@ =~= encode_record_spec(id@, handle));
    }
    s
}

/// Index of the first `;` in `s` at or after `from`, or the length when
/// there is none.
fn find_semi(s: &str, from: usize) -> (r: usize)
    requires
        from <= s@.len(),
    ensures
        from <= r <= s@.len(),
        forall|j: int| from <= j < r ==> s@[j] != ';',
        r < s@.len() ==> s@[r as int] == ';',
{
    let n = s.unicode_len();
    let mut i = from;
    while i < n
        invariant
            from <= i <= n,
            n == s@.len(),
            forall|j: int| from <= j < i ==> s@[j] != ';',
        decreases n - i,
    {
        if s.get_char(i) == ';' {
            return i;
        }
        i = i + 1;
    }
    n
}

/// Decodes the raw text of the store file, degrading any malformed content
/// to the empty default record instead of failing.
pub fn decode_record(content: &str) -> (r: (String, u32))
    ensures
        r.0@ == decode_record_spec(content@).0,
        r.1 == decode_record_spec(content@).1,
{
    let len = content.unicode_len();
    let i = find_semi(content, 0);
    if i == len {
        proof {
            lemma_first_semi_none(content@);
        }
        return (String::new(), 0);
    }
    proof {
        lemma_first_semi_at(content@, i as int);
    }
    let j = find_semi(content, i + 1);
    let ghost rest = content@.subrange(i as int + 1, len as int);
    let ghost f2 = content@.subrange(i as int + 1, j as int);
    proof {
        if j < len {
            assert(rest[j - i - 1] == ';');
            assert forall|m: int| 0 <= m < j - i - 1 implies rest[m] != ';' by {
                assert(rest[m] == content@[i + 1 + m]);
            }
            lemma_first_semi_at(rest, j - i - 1);
            assert(rest.subrange(0, j - i - 1) =~= f2);
        } else {
            assert forall|m: int| 0 <= m < rest.len() implies rest[m] != ';' by {
                assert(rest[m] == content@[i + 1 + m]);
            }
            lemma_first_semi_none(rest);
            assert(rest =~= f2);
        }
        assert(f2 == field2_of(content@));
    }
    if j == i + 1 {
        // empty handle field
        proof {
            assert(f2 =~= Seq::<char>::empty());
            assert(handle_digits(f2) =~= Seq::<char>::empty());
            assert(parse_handle_spec(f2) is None);
        }
        return (String::new(), 0);
    }
    let has_plus = content.get_char(i + 1) == '+';
    let start = if has_plus {
        i + 2
    } else {
        i + 1
    };
    let ghost digits = content@.subrange(start as int, j as int);
    proof {
        assert(f2[0] == content@[i + 1]);
        if has_plus {
            assert(f2.drop_first() =~= digits);
        }
        assert(handle_digits(f2) == digits);
    }
    if start == j {
        // a bare plus sign carries no digits
        proof {
            assert(parse_handle_spec(f2) is None);
        }
        return (String::new(), 0);
    }
    let mut val: u32 = 0;
    let mut k = start;
    while k < j
        invariant
            i + 1 <= start <= k <= j <= len,
            len == content@.len(),
            first_semi(content@) == Some(i as int),
            f2 == field2_of(content@),
            digits == handle_digits(f2),
            digits == content@.subrange(start as int, j as int),
            i < j,
            forall|m: int| start <= m < k ==> is_dec_digit(#[trigger] content@[m]),
            val as int == dec_val(content@.subrange(start as int, k as int)),
        decreases j - k,
    {
        let c = content.get_char(k);
        let u = c as u32;
        if u < 48 || u > 57 {
            proof {
                assert(digits[k - start] == content@[k as int]);
                assert(!is_dec_digit(digits[k - start]));
                assert(!all_dec_digits(digits));
                assert(parse_handle_spec(f2) is None);
            }
            return (String::new(), 0);
        }
        let d = u - 48;
        let next = match val.checked_mul(10) {
            Some(m) => m.checked_add(d),
            None => None,
        };
        proof {
            let pre = content@.subrange(start as int, k as int);
            let cur = content@.subrange(start as int, k as int + 1);
            assert(cur.drop_last() =~= pre);
            assert(cur.last() == content@[k as int]);
            assert(dec_val(cur) == dec_val(pre) * 10 + (c as int - '0' as int));
        }
        match next {
            None => {
                // the digits read so far already exceed the handle range; a
                // run of digits never shrinks in value, so whatever follows,
                // the field cannot parse
                proof {
                    let cur = content@.subrange(start as int, k as int + 1);
                    assert(cur =~= digits.take(k + 1 - start));
                    assert(dec_val(digits.take(k + 1 - start)) > u32::MAX);
                    if all_dec_digits(digits) {
                        lemma_dec_val_prefix_le(digits, k + 1 - start);
                        assert(dec_val(digits) > u32::MAX);
                    }
                    assert(parse_handle_spec(f2) is None);
                }
                return (String::new(), 0);
            },
            Some(v) => {
                val = v;
            },
        }
        k = k + 1;
    }
    proof {
        assert(digits =~= content@.subrange(start as int, j as int));
        assert(all_dec_digits(digits)) by {
            assert forall|m: int| 0 <= m < digits.len() implies is_dec_digit(
                #[trigger] digits[m],
            ) by {
                assert(digits[m] == content@[start + m]);
            }
        }
        assert(digits.len() > 0);
        assert(val as int == dec_val(digits));
        assert(parse_handle_spec(f2) == Some(val));
    }
    let field1 = content.substring_char(0, i);
    let id = String::from_str(field1);
    proof {
        assert(id@ =~= decode_record_spec(content@).0);
    }
    (id, val)
}

/// Saving a record and loading it back yields the identifier and the handle
/// unchanged, for every identifier free of the `;` delimiter.
pub proof fn lemma_record_round_trip(id: Seq<char>, handle: u32)
    requires
        !id.contains(';'),
    ensures
        decode_record_spec(encode_record_spec(id, handle)) == (id, handle),
{
    let digits = dec_str(handle as int);
    let s = encode_record_spec(id, handle);
    lemma_dec_str_digits(handle as int);
    lemma_dec_val_of_dec_str(handle as int);
    assert(s.len() == id.len() + 1 + digits.len());
    assert(s[id.len() as int] == ';');
    assert forall|j: int| 0 <= j < id.len() implies s[j] != ';' by {
        assert(s[j] == id[j]);
        if id[j] == ';' {
            assert(id.contains(';'));
        }
    }
    lemma_first_semi_at(s, id.len() as int);
    let rest = s.subrange(id.len() as int + 1, s.len() as int);
    assert(rest =~= digits);
    assert forall|m: int| 0 <= m < rest.len() implies rest[m] != ';' by {
        assert(is_dec_digit(rest[m]));
    }
    lemma_first_semi_none(rest);
    assert(field2_of(s) == digits);
    assert(is_dec_digit(digits[0]));
    assert(digits[0] != '+');
    assert(handle_digits(digits) == digits);
    assert(parse_handle_spec(digits) == Some(handle));
    assert(s.subrange(0, id.len() as int) =~= id);
}

} // verus!
