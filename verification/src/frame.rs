//! Wire framing for queue entries.
//!
//! A queue entry is either the shutdown sentinel or a frame of three fields,
//! `<shard_id>,<kind>,<payload>`, joined by commas. Only the first two commas
//! are delimiters: every byte after the second comma belongs to the payload,
//! so a payload may itself contain commas without corrupting the frame.

use vstd::prelude::*;

verus! {

/// The delimiter that separates the three fields of a frame.
pub open spec fn comma() -> u8 {
    44u8
}

/// True when `b` is an ASCII decimal digit.
pub open spec fn is_digit(b: u8) -> bool {
    48 <= b && b <= 57
}

/// True when every byte of `s` is an ASCII decimal digit.
pub open spec fn all_digits(s: Seq<u8>) -> bool {
    forall|i: int| 0 <= i < s.len() ==> is_digit(s[i])
}

/// True when no byte of `s` is the field delimiter.
pub open spec fn comma_free(s: Seq<u8>) -> bool {
    forall|i: int| 0 <= i < s.len() ==> s[i] != comma()
}

/// The numeric value of one ASCII digit.
pub open spec fn digit_val(b: u8) -> nat
    recommends
        is_digit(b),
{
    (b - 48) as nat
}

/// The value of a string of ASCII digits, read as a decimal number.
pub open spec fn digits_val(s: Seq<u8>) -> nat
    recommends
        all_digits(s),
    decreases s.len(),
{
    if s.len() == 0 {
        0
    } else {
        digits_val(s.drop_last()) * 10 + digit_val(s.last())
    }
}

/// The canonical decimal rendering of `n` (no sign, no leading zeros).
pub open spec fn dec_of(n: nat) -> Seq<u8>
    decreases n,
{
    if n < 10 {
        seq![(n + 48) as u8]
    } else {
        dec_of(n / 10).push(((n % 10) + 48) as u8)
    }
}

/// The index of the first comma of `s`, if there is one.
pub open spec fn find_comma_spec(s: Seq<u8>) -> Option<int>
    decreases s.len(),
{
    if s.len() == 0 {
        None
    } else if s[0] == comma() {
        Some(0int)
    } else {
        match find_comma_spec(s.drop_first()) {
            Some(i) => Some(i + 1),
            None => None,
        }
    }
}

/// The frame that carries `shard_id`, `kind` and `payload` as one entry.
pub open spec fn frame_of(shard_id: u64, kind: Seq<u8>, payload: Seq<u8>) -> Seq<u8> {
    dec_of(shard_id as nat) + seq![comma()] + kind + seq![comma()] + payload
}

/// Splits an entry back into its three fields: the bytes before the first
/// comma read as a decimal shard id, the bytes between the first two commas
/// as the kind tag, and everything after the second comma as the payload.
/// `None` when the entry holds fewer than two commas or the first field is
/// not a decimal number that fits in a `u64`.
pub open spec fn split_frame_spec(s: Seq<u8>) -> Option<(nat, Seq<u8>, Seq<u8>)> {
    match find_comma_spec(s) {
        None => None,
        Some(i) => match find_comma_spec(s.skip(i + 1)) {
            None => None,
            Some(d) => {
                let j = i + 1 + d;
                let head = s.take(i);
                if head.len() > 0 && all_digits(head) && digits_val(head) <= u64::MAX {
                    Some((digits_val(head), s.subrange(i + 1, j), s.skip(j + 1)))
                } else {
                    None
                }
            },
        },
    }
}

/// The reserved shutdown sentinel entry, the bytes of `"event"`.
pub open spec fn sentinel_spec() -> Seq<u8> {
    seq![101u8, 118u8, 101u8, 110u8, 116u8]
}

proof fn lemma_digits_val_take_step(s: Seq<u8>, i: int)
    requires
        0 <= i < s.len(),
    ensures
        digits_val(s.take(i + 1)) == digits_val(s.take(i)) * 10 + digit_val(s[i]),
{
    assert(s.take(i + 1).drop_last() =~= s.take(i));
    assert(s.take(i + 1).last() == s[i]);
}

proof fn lemma_digits_val_take_le(s: Seq<u8>, i: int)
    requires
        0 <= i <= s.len(),
    ensures
        digits_val(s.take(i)) <= digits_val(s),
    decreases s.len() - i,
{
    if i == s.len() {
        assert(s.take(i) =~= s);
    } else {
        lemma_digits_val_take_step(s, i);
        lemma_digits_val_take_le(s, i + 1);
    }
}

/// Every byte of `dec_of(n)` is a digit, and there is at least one.
pub proof fn lemma_dec_of_digits(n: nat)
    ensures
        all_digits(dec_of(n)),
        dec_of(n).len() >= 1,
    decreases n,
{
    if n >= 10 {
        lemma_dec_of_digits(n / 10);
    }
}

/// Reading `dec_of(n)` back as a decimal number gives `n` again.
pub proof fn lemma_dec_of_val(n: nat)
    ensures
        digits_val(dec_of(n)) == n,
    decreases n,
{
    if n < 10 {
        assert(seq![((n + 48) as u8)].drop_last() =~= Seq::<u8>::empty());
        assert(digits_val(Seq::<u8>::empty()) == 0);
        assert(digit_val((n + 48) as u8) == n);
    } else {
        lemma_dec_of_val(n / 10);
        vstd::arithmetic::div_mod::lemma_mod_bound(n as int, 10);
        let d = (((n % 10) + 48) as u8);
        assert(dec_of(n / 10).push(d).drop_last() =~= dec_of(n / 10));
        assert(dec_of(n / 10).push(d).last() == d);
        assert(digit_val(d) == n % 10);
        vstd::arithmetic::div_mod::lemma_fundamental_div_mod(n as int, 10);
    }
}

proof fn lemma_find_comma_char(s: Seq<u8>)
    ensures
        match find_comma_spec(s) {
            Some(i) => 0 <= i < s.len() && s[i] == comma() && (forall|j: int|
                0 <= j < i ==> s[j] != comma()),
            None => forall|j: int| 0 <= j < s.len() ==> s[j] != comma(),
        },
    decreases s.len(),
{
    if s.len() == 0 {
    } else if s[0] == comma() {
    } else {
        lemma_find_comma_char(s.drop_first());
        match find_comma_spec(s.drop_first()) {
            Some(i0) => {
                assert(s[i0 + 1] == s.drop_first()[i0]);
                assert forall|j: int| 0 <= j < i0 + 1 implies s[j] != comma() by {
                    if j > 0 {
                        assert(s[j] == s.drop_first()[j - 1]);
                    }
                }
            },
            None => {
                assert forall|j: int| 0 <= j < s.len() implies s[j] != comma() by {
                    if j > 0 {
                        assert(s[j] == s.drop_first()[j - 1]);
                    }
                }
            },
        }
    }
}

proof fn lemma_find_comma_at(s: Seq<u8>, i: int)
    requires
        0 <= i < s.len(),
        s[i] == comma(),
        forall|j: int| 0 <= j < i ==> s[j] != comma(),
    ensures
        find_comma_spec(s) == Some(i),
{
    lemma_find_comma_char(s);
    match find_comma_spec(s) {
        None => {
            assert(s[i] != comma());
        },
        Some(i2) => {
            if i2 < i {
                assert(s[i2] != comma());
            } else if i < i2 {
                assert(s[i] != comma());
            }
        },
    }
}

/// Splitting recovers exactly the three fields that built the frame, for any
/// payload at all: bytes equal to the delimiter inside the payload are left
/// untouched, because only the first two commas of the frame are consumed.
pub proof fn lemma_frame_round_trip(shard_id: u64, kind: Seq<u8>, payload: Seq<u8>)
    requires
        comma_free(kind),
    ensures
        split_frame_spec(frame_of(shard_id, kind, payload)) == Some(
            (shard_id as nat, kind, payload),
        ),
{
    let s = frame_of(shard_id, kind, payload);
    let dec = dec_of(shard_id as nat);
    let m = dec.len() as int;
    lemma_dec_of_digits(shard_id as nat);
    lemma_dec_of_val(shard_id as nat);
    assert(s[m] == comma());
    assert(forall|j: int| 0 <= j < m ==> s[j] == dec[j]);
    assert(forall|j: int| 0 <= j < m ==> s[j] != comma());
    lemma_find_comma_at(s, m);
    let sk = s.skip(m + 1);
    assert(sk =~= kind + seq![comma()] + payload);
    let k = kind.len() as int;
    assert(sk[k] == comma());
    assert(forall|j: int| 0 <= j < k ==> sk[j] == kind[j]);
    lemma_find_comma_at(sk, k);
    let j = m + 1 + k;
    assert(s.take(m) =~= dec);
    assert(s.subrange(m + 1, j) =~= kind);
    assert(s.skip(j + 1) =~= payload);
}

/// No frame ever equals the shutdown sentinel: a frame always contains the
/// delimiter, and the sentinel does not.
pub proof fn lemma_frame_not_sentinel(shard_id: u64, kind: Seq<u8>, payload: Seq<u8>)
    ensures
        frame_of(shard_id, kind, payload) != sentinel_spec(),
{
    let s = frame_of(shard_id, kind, payload);
    let m = dec_of(shard_id as nat).len() as int;
    lemma_dec_of_digits(shard_id as nat);
    assert(s[m] == comma());
    if s == sentinel_spec() {
        assert(s.len() == 5);
        assert(sentinel_spec()[m] != comma());
    }
}

/// Writes `n` in decimal, the exact inverse of the digits parser.
pub fn u64_to_dec(n: u64) -> (v: Vec<u8>)
    ensures
        v@ == dec_of(n as nat),
    decreases n,
{
    if n < 10 {
        let mut v: Vec<u8> = Vec::new();
        v.push((n as u8) + 48);
        assert(v@ =~= dec_of(n as nat));
        v
    } else {
        let mut v = u64_to_dec(n / 10);
        v.push(((n % 10) as u8) + 48);
        v
    }
}

/// Reads a decimal number: `Some` exactly when `s` is a nonempty string of
/// digits whose value fits in a `u64`.
pub fn parse_digits(s: &[u8]) -> (r: Option<u64>)
    ensures
        r is Some <==> (s@.len() > 0 && all_digits(s@) && digits_val(s@) <= u64::MAX),
        r matches Some(n) ==> n == digits_val(s@),
{
    if s.len() == 0 {
        return None;
    }
    let mut acc: u64 = 0;
    let mut i: usize = 0;
    while i < s.len()
        invariant
            i <= s@.len(),
            all_digits(s@.take(i as int)),
            acc == digits_val(s@.take(i as int)),
        decreases s@.len() - i,
    {
        let b = s[i];
        if b < 48 || b > 57 {
            assert(!is_digit(s@[i as int]));
            return None;
        }
        let d = (b - 48) as u64;
        proof {
            lemma_digits_val_take_step(s@, i as int);
        }
        let acc10 = match acc.checked_mul(10) {
            Some(v) => v,
            None => {
                proof {
                    lemma_digits_val_take_le(s@, i as int + 1);
                }
                return None;
            },
        };
        acc = match acc10.checked_add(d) {
            Some(v) => v,
            None => {
                proof {
                    lemma_digits_val_take_le(s@, i as int + 1);
                }
                return None;
            },
        };
        i = i + 1;
    }
    assert(s@.take(i as int) =~= s@);
    Some(acc)
}

fn find_comma_from(s: &[u8], from: usize) -> (r: Option<usize>)
    requires
        from <= s@.len(),
    ensures
        match r {
            Some(i) => from <= i < s@.len() && s@[i as int] == comma() && (forall|j: int|
                from <= j < i ==> s@[j] != comma()),
            None => forall|j: int| from <= j < s@.len() ==> s@[j] != comma(),
        },
{
    let mut i: usize = from;
    while i < s.len()
        invariant
            from <= i <= s@.len(),
            forall|j: int| from <= j < i ==> s@[j] != comma(),
        decreases s@.len() - i,
    {
        if s[i] == 44 {
            return Some(i);
        }
        i = i + 1;
    }
    None
}

/// Splits a queue entry into `(shard_id, kind, payload)` at the first two
/// commas, per `split_frame_spec`. Everything after the second comma is the
/// payload, however many commas it holds.
pub fn parse_event_str<'a>(s: &'a [u8]) -> (r: Option<(u64, &'a [u8], &'a [u8])>)
    ensures
        match r {
            Some(f) => split_frame_spec(s@) == Some((f.0 as nat, f.1@, f.2@)),
            None => split_frame_spec(s@) is None,
        },
{
    let slen = s.len();
    let i = match find_comma_from(s, 0) {
        Some(i) => i,
        None => {
            proof {
                lemma_find_comma_char(s@);
            }
            return None;
        },
    };
    proof {
        lemma_find_comma_at(s@, i as int);
    }
    let head = vstd::slice::slice_subrange(s, 0, i);
    assert(head@ =~= s@.take(i as int));
    let shard_id = match parse_digits(head) {
        Some(n) => n,
        None => {
            proof {
                match find_comma_spec(s@.skip(i as int + 1)) {
                    Some(_) => {},
                    None => {},
                }
            }
            return None;
        },
    };
    let j = match find_comma_from(s, i + 1) {
        Some(j) => j,
        None => {
            proof {
                let sk = s@.skip(i as int + 1);
                lemma_find_comma_char(sk);
                match find_comma_spec(sk) {
                    Some(d) => {
                        assert(s@[i as int + 1 + d] == sk[d]);
                    },
                    None => {},
                }
            }
            return None;
        },
    };
    proof {
        let sk = s@.skip(i as int + 1);
        let d = j as int - (i as int + 1);
        assert(sk[d] == s@[j as int]);
        assert(forall|t: int| 0 <= t < d ==> sk[t] == s@[i as int + 1 + t]);
        lemma_find_comma_at(sk, d);
    }
    let kind = vstd::slice::slice_subrange(s, i + 1, j);
    let payload = vstd::slice::slice_subrange(s, j + 1, slen);
    proof {
        assert(payload@ =~= s@.skip(j as int + 1));
        assert(s@.take(i as int).len() > 0 && all_digits(s@.take(i as int)) && digits_val(
            s@.take(i as int),
        ) <= u64::MAX);
        assert(split_frame_spec(s@) == Some((shard_id as nat, kind@, payload@)));
    }
    Some((shard_id, kind, payload))
}

fn push_all(v: &mut Vec<u8>, s: &[u8])
    ensures
        final(v)@ == old(v)@ + s@,
{
    let ghost v0 = v@;
    let mut i: usize = 0;
    while i < s.len()
        invariant
            i <= s@.len(),
            v@ == v0 + s@.take(i as int),
        decreases s@.len() - i,
    {
        v.push(s[i]);
        i = i + 1;
        assert(v@ =~= v0 + s@.take(i as int));
    }
    assert(v0 + s@.take(i as int) =~= v0 + s@);
}

/// Builds the frame `<shard_id>,<kind>,<payload>`: the encoder's join step.
pub fn encode_frame(shard_id: u64, kind: &[u8], payload: &[u8]) -> (v: Vec<u8>)
    ensures
        v@ == frame_of(shard_id, kind@, payload@),
{
    let mut v = u64_to_dec(shard_id);
    v.push(44);
    push_all(&mut v, kind);
    v.push(44);
    push_all(&mut v, payload);
    assert(v@ =~= frame_of(shard_id, kind@, payload@));
    v
}

/// True exactly when two byte strings hold the same bytes.
pub fn bytes_eq(a: &[u8], b: &[u8]) -> (r: bool)
    ensures
        r == (a@ == b@),
{
    if a.len() != b.len() {
        return false;
    }
    let mut i: usize = 0;
    while i < a.len()
        invariant
            i <= a@.len(),
            a@.len() == b@.len(),
            forall|j: int| 0 <= j < i ==> a@[j] == b@[j],
        decreases a@.len() - i,
    {
        if a[i] != b[i] {
            return false;
        }
        i = i + 1;
    }
    assert(a@ =~= b@);
    true
}

/// The shutdown sentinel entry as bytes.
pub fn sentinel() -> (v: Vec<u8>)
    ensures
        v@ == sentinel_spec(),
{
    let mut v: Vec<u8> = Vec::new();
    v.push(101);
    v.push(118);
    v.push(101);
    v.push(110);
    v.push(116);
    assert(v@ =~= sentinel_spec());
    v
}

/// True exactly when `s` is the shutdown sentinel.
pub fn is_sentinel(s: &[u8]) -> (r: bool)
    ensures
        r == (s@ == sentinel_spec()),
{
    let v = sentinel();
    bytes_eq(s, v.as_slice())
}

} // verus!
