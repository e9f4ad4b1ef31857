use vstd::prelude::*;

verus! {

/// Named string parameters of one environment. A later entry for a key
/// overrides an earlier one.
pub struct ProgramParams {
    entries: Vec<(String, String)>,
}

/// The value bound to `key` by the last entry that names it.
pub open spec fn lookup(entries: Seq<(String, String)>, key: Seq<char>) -> Option<Seq<char>>
    decreases entries.len(),
{
    if entries.len() == 0 {
        None
    } else if entries.last().0@ == key {
        Some(entries.last().1@)
    } else {
        lookup(entries.drop_last(), key)
    }
}

impl ProgramParams {
    pub closed spec fn entries(&self) -> Seq<(String, String)> {
        self.entries@
    }

    pub open spec fn value_of(&self, key: Seq<char>) -> Option<Seq<char>> {
        lookup(self.entries(), key)
    }

    pub fn new() -> (r: Self)
        ensures
            forall|k: Seq<char>| r.value_of(k) is None,
    {
        ProgramParams { entries: Vec::new() }
    }

    /// Binds `key` to `value`, replacing any earlier binding.
    pub fn insert(&mut self, key: &str, value: &str)
        ensures
            forall|k: Seq<char>|
                #[trigger] final(self).value_of(k) == if k == key@ {
                    Some(value@)
                } else {
                    old(self).value_of(k)
                },
    {
        self.entries.push((key.to_owned(), value.to_owned()));
        proof {
            assert(self.entries@.drop_last() =~= old(self).entries@);
        }
    }

    /// The value bound to `key`, if any.
    pub fn get(&self, key: &str) -> (r: Option<String>)
        ensures
            r is Some <==> self.value_of(key@) is Some,
            r is Some ==> r->Some_0@ == self.value_of(key@)->Some_0,
    {
        let wanted = key.to_owned();
        let mut i: usize = self.entries.len();
        proof {
            assert(self.entries@.subrange(0, i as int) =~= self.entries@);
        }
        while i > 0
            invariant
                i <= self.entries@.len(),
                wanted@ == key@,
                lookup(self.entries@, key@) == lookup(self.entries@.subrange(0, i as int), key@),
            decreases i,
        {
            let ghost prefix = self.entries@.subrange(0, i as int);
            assert(prefix.drop_last() =~= self.entries@.subrange(0, i - 1));
            assert(prefix.last() == self.entries@[i - 1]);
            if self.entries[i - 1].0 == wanted {
                let value = self.entries[i - 1].1.clone();
                assert(lookup(prefix, key@) == Some(value@));
                return Some(value);
            }
            i = i - 1;
        }
        proof {
            assert(self.entries@.subrange(0, 0) =~= Seq::<(String, String)>::empty());
        }
        None
    }
}

/// Why a program could not be written from its parameters.
#[derive(Debug)]
pub enum ProgramError {
    /// A parameter the program needs is not set; carries its name.
    MissingParameter(String),
}

impl ProgramError {
    /// The name of the missing parameter.
    pub open spec fn spec_key(self) -> Seq<char> {
        match self {
            ProgramError::MissingParameter(k) => k@,
        }
    }

    pub open spec fn missing(self, key: Seq<char>) -> bool {
        self.spec_key() == key
    }
}

/// The value of a parameter the program cannot do without.
pub fn required(params: &ProgramParams, key: &str) -> (r: Result<String, ProgramError>)
    ensures
        r is Ok <==> params.value_of(key@) is Some,
        r is Ok ==> r->Ok_0@ == params.value_of(key@)->Some_0,
        r is Err ==> r->Err_0.missing(key@),
{
    match params.get(key) {
        Some(v) => Ok(v),
        None => Err(ProgramError::MissingParameter(key.to_owned())),
    }
}

pub open spec fn key_views(keys: Seq<&str>) -> Seq<Seq<char>> {
    keys.map_values(|k: &str| k@)
}

/// Every key has a value.
pub open spec fn all_set(params: ProgramParams, keys: Seq<Seq<char>>) -> bool {
    forall|i: int| 0 <= i < keys.len() ==> (#[trigger] params.value_of(keys[i])) is Some
}

/// `key` is the first of `keys` without a value.
pub open spec fn first_unset(params: ProgramParams, keys: Seq<Seq<char>>, key: Seq<char>) -> bool {
    exists|i: int|
        0 <= i < keys.len() && #[trigger] keys[i] == key && params.value_of(key) is None
            && all_set(params, keys.subrange(0, i))
}

/// The values of all `keys`, in order; fails on the first key without one.
pub fn required_all(params: &ProgramParams, keys: &Vec<&str>) -> (r: Result<Vec<String>, ProgramError>)
    ensures
        r is Ok <==> all_set(*params, key_views(keys@)),
        r is Ok ==> r->Ok_0@.len() == keys@.len() && forall|i: int|
            0 <= i < keys@.len() ==> (#[trigger] r->Ok_0@[i])@ == params.value_of(keys@[i]@)->Some_0,
        r is Err ==> first_unset(*params, key_views(keys@), r->Err_0.spec_key()),
{
    let ghost views = key_views(keys@);
    let mut values: Vec<String> = Vec::new();
    let mut i: usize = 0;
    while i < keys.len()
        invariant
            i <= keys@.len(),
            views == key_views(keys@),
            values@.len() == i,
            forall|j: int| 0 <= j < i ==> (#[trigger] values@[j])@ == params.value_of(keys@[j]@)->Some_0,
            all_set(*params, views.subrange(0, i as int)),
        decreases keys@.len() - i,
    {
        match params.get(keys[i]) {
            Some(v) => {
                values.push(v);
                proof {
                    assert forall|j: int| 0 <= j < i + 1 implies (#[trigger] params.value_of(
                        views.subrange(0, i + 1)[j],
                    )) is Some by {
                        if j < i {
                            assert(views.subrange(0, i + 1)[j] == views.subrange(0, i as int)[j]);
                        }
                    }
                }
            },
            None => {
                proof {
                    assert(views[i as int] == keys@[i as int]@);
                    assert(first_unset(*params, views, views[i as int]));
                    assert(params.value_of(views[i as int]) is None);
                }
                let err = ProgramError::MissingParameter(keys[i].to_owned());
                assert(first_unset(*params, views, views[i as int]));
                return Err(err);
            },
        }
        i = i + 1;
    }
    proof {
        assert(views.subrange(0, i as int) =~= views);
    }
    Ok(values)
}

pub open spec fn is_digit(c: char) -> bool {
    '0' <= c <= '9'
}

/// The number a string of decimal digits writes.
pub open spec fn digits_value(s: Seq<char>) -> nat
    decreases s.len(),
{
    if s.len() == 0 {
        0
    } else {
        digits_value(s.drop_last()) * 10 + (s.last() as nat - '0' as nat) as nat
    }
}

/// A non-empty string of decimal digits.
pub open spec fn is_decimal(s: Seq<char>) -> bool {
    s.len() > 0 && forall|i: int| 0 <= i < s.len() ==> is_digit(#[trigger] s[i])
}

/// The digits of an unsigned number: the text after an optional `+`.
pub open spec fn unsigned_digits(s: Seq<char>) -> Seq<char> {
    if s.len() > 0 && s[0] == '+' {
        s.drop_first()
    } else {
        s
    }
}

/// The value of `s` read as an unsigned decimal at most `max`, as Rust's integer
/// parsing reads it: an optional `+` and at least one digit, nothing else.
pub open spec fn unsigned_value(s: Seq<char>, max: nat) -> Option<nat> {
    let d = unsigned_digits(s);
    if is_decimal(d) && digits_value(d) <= max {
        Some(digits_value(d))
    } else {
        None
    }
}

/// The value of `s` read as a signed decimal in `[-2^63, 2^63 - 1]`: an optional
/// sign and at least one digit, nothing else.
pub open spec fn i64_value(s: Seq<char>) -> Option<int> {
    if s.len() > 0 && s[0] == '-' {
        let d = s.drop_first();
        if is_decimal(d) && digits_value(d) <= 0x8000_0000_0000_0000 {
            Some(-(digits_value(d) as int))
        } else {
            None
        }
    } else {
        match unsigned_value(s, 0x7fff_ffff_ffff_ffff) {
            Some(v) => Some(v as int),
            None => None,
        }
    }
}

proof fn lemma_digits_value_grows(s: Seq<char>, i: int)
    requires
        0 <= i <= s.len(),
    ensures
        digits_value(s.subrange(0, i)) <= digits_value(s),
    decreases s.len(),
{
    if i < s.len() {
        lemma_digits_value_grows(s.drop_last(), i);
        assert(s.drop_last().subrange(0, i) =~= s.subrange(0, i));
    } else {
        assert(s.subrange(0, i) =~= s);
    }
}

/// Reads `s@[start..]` as a string of digits, if it is one and its value fits in `u128`.
fn digits_from(s: &str, start: usize) -> (r: Option<u128>)
    requires
        start <= s@.len(),
    ensures
        ({
            let d = s@.subrange(start as int, s@.len() as int);
            r is Some <==> (is_decimal(d) && digits_value(d) <= u128::MAX)
        }),
        r is Some ==> r->Some_0 == digits_value(s@.subrange(start as int, s@.len() as int)),
{
    let n = s.unicode_len();
    if start >= n {
        return None;
    }
    let ghost d = s@.subrange(start as int, s@.len() as int);
    let mut acc: u128 = 0;
    let mut i: usize = start;
    while i < n
        invariant
            start <= i <= n,
            n == s@.len(),
            d == s@.subrange(start as int, n as int),
            acc == digits_value(d.subrange(0, i - start)),
            forall|j: int| 0 <= j < i - start ==> is_digit(#[trigger] d[j]),
        decreases n - i,
    {
        let c = s.get_char(i);
        assert(c == d[i - start]);
        assert(d.subrange(0, i - start + 1).drop_last() =~= d.subrange(0, i - start));
        if !('0' <= c && c <= '9') {
            return None;
        }
        let digit = (c as u32 - '0' as u32) as u128;
        let next = match acc.checked_mul(10) {
            Some(m) => m.checked_add(digit),
            None => None,
        };
        match next {
            Some(v) => {
                acc = v;
            },
            None => {
                proof {
                    lemma_digits_value_grows(d, i - start + 1);
                }
                return None;
            },
        }
        i = i + 1;
    }
    proof {
        assert(d.subrange(0, i - start) =~= d);
    }
    Some(acc)
}

/// Parses an unsigned decimal that fits in `u128`.
pub fn parse_u128(s: &str) -> (r: Option<u128>)
    ensures
        r is Some <==> unsigned_value(s@, u128::MAX as nat) is Some,
        r is Some ==> r->Some_0 == unsigned_value(s@, u128::MAX as nat)->Some_0,
{
    let n = s.unicode_len();
    let start: usize = if n > 0 && s.get_char(0) == '+' { 1 } else { 0 };
    proof {
        assert(s@.subrange(start as int, s@.len() as int) =~= unsigned_digits(s@));
    }
    digits_from(s, start)
}

/// Parses an unsigned decimal that fits in `u64`.
pub fn parse_u64(s: &str) -> (r: Option<u64>)
    ensures
        r is Some <==> unsigned_value(s@, u64::MAX as nat) is Some,
        r is Some ==> r->Some_0 == unsigned_value(s@, u64::MAX as nat)->Some_0,
{
    match parse_u128(s) {
        Some(v) => if v <= u64::MAX as u128 {
            Some(v as u64)
        } else {
            None
        },
        None => None,
    }
}

/// Parses a signed decimal that fits in `i64`.
pub fn parse_i64(s: &str) -> (r: Option<i64>)
    ensures
        r is Some <==> i64_value(s@) is Some,
        r is Some ==> r->Some_0 == i64_value(s@)->Some_0,
{
    let n = s.unicode_len();
    if n > 0 && s.get_char(0) == '-' {
        proof {
            assert(s@.subrange(1, s@.len() as int) =~= s@.drop_first());
        }
        match digits_from(s, 1) {
            Some(v) => if v <= 0x8000_0000_0000_0000u128 {
                if v == 0x8000_0000_0000_0000u128 {
                    Some(i64::MIN)
                } else {
                    Some(-(v as i64))
                }
            } else {
                None
            },
            None => None,
        }
    } else {
        match parse_u128(s) {
            Some(v) => if v <= i64::MAX as u128 {
                Some(v as i64)
            } else {
                None
            },
            None => None,
        }
    }
}

} // verus!
