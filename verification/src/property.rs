//! Four-state property values.
//!
//! A property is a Verilog-style constant: either a literal string or a
//! bit-string over the four states `0`, `1`, `x` (unknown) and `z`
//! (high impedance), stored low bit first.  An integer property also
//! caches the reconstruction of the low 64 bits of its bit-string
//! (bit `i` is set iff entry `i` is `1`); every operation that changes
//! the bit-string recomputes that cache, and [`Property::wf`] states the
//! invariant.

use vstd::arithmetic::power2::*;
use vstd::bits::*;
use vstd::prelude::*;

verus! {

/// Errors of property conversions and slicing.
#[derive(Debug, Copy, Clone, Eq, PartialEq, Structural)]
pub enum PropertyError {
    /// The character is not one of `0`, `1`, `x`, `z`.
    InvalidStateChar,
    /// There was no character to convert.
    MissingChar,
    /// A string property has no integer value.
    StringHasNoInt,
    /// An integer property has no string value.
    IntHasNoString,
    /// A literal string property has no bit-vector.
    StringHasNoBits,
}

/// One Verilog logic state.
#[derive(Copy, Clone, Debug, PartialEq, Eq, Structural, Hash)]
pub enum State {
    /// Logic zero, a false condition.
    S0,
    /// Logic one, a true condition.
    S1,
    /// An unknown logic value: could be zero or one.
    Sx,
    /// A high-impedance state.
    Sz,
}

/// The character denoting a state.
pub open spec fn state_char(s: State) -> char {
    match s {
        State::S0 => '0',
        State::S1 => '1',
        State::Sx => 'x',
        State::Sz => 'z',
    }
}

/// The state denoted by a character, if any.
pub open spec fn char_state(c: char) -> Option<State> {
    if c == '0' {
        Some(State::S0)
    } else if c == '1' {
        Some(State::S1)
    } else if c == 'x' {
        Some(State::Sx)
    } else if c == 'z' {
        Some(State::Sz)
    } else {
        None
    }
}

impl State {
    /// The character denoting this state.
    pub fn to_char(&self) -> (r: char)
        ensures
            r == state_char(*self),
    {
        match self {
            State::S0 => '0',
            State::S1 => '1',
            State::Sx => 'x',
            State::Sz => 'z',
        }
    }

    /// The state a character denotes; fails on any character outside
    /// `{0, 1, x, z}`.
    pub fn try_from_char(value: char) -> (r: Result<State, PropertyError>)
        ensures
            match r {
                Ok(s) => char_state(value) == Some(s),
                Err(e) => char_state(value) is None && e == PropertyError::InvalidStateChar,
            },
    {
        if value == '0' {
            Ok(State::S0)
        } else if value == '1' {
            Ok(State::S1)
        } else if value == 'x' {
            Ok(State::Sx)
        } else if value == 'z' {
            Ok(State::Sz)
        } else {
            Err(PropertyError::InvalidStateChar)
        }
    }

    /// The state an ASCII byte denotes; fails on any byte outside
    /// `{b'0', b'1', b'x', b'z'}`.
    pub fn try_from_byte(value: u8) -> (r: Result<State, PropertyError>)
        ensures
            match r {
                Ok(s) => char_state(value as char) == Some(s),
                Err(e) => char_state(value as char) is None && e
                    == PropertyError::InvalidStateChar,
            },
    {
        State::try_from_char(value as char)
    }

    /// The state an optional character denotes; fails on `None` and on
    /// any character outside `{0, 1, x, z}`.
    pub fn try_from_opt_char(value: Option<char>) -> (r: Result<State, PropertyError>)
        ensures
            match value {
                Some(c) => match r {
                    Ok(s) => char_state(c) == Some(s),
                    Err(e) => char_state(c) is None && e == PropertyError::InvalidStateChar,
                },
                None => r == Err::<State, PropertyError>(PropertyError::MissingChar),
            },
    {
        match value {
            Some(c) => State::try_from_char(c),
            None => Err(PropertyError::MissingChar),
        }
    }
}

/// The value of the low `n` bits of a bit-string: the sum of `2^i` over
/// every `i < n` whose entry is `1`.  Entries past the end of the
/// string count as zero.
pub open spec fn bits_int(bits: Seq<State>, n: int) -> int
    decreases n,
{
    if n <= 0 {
        0
    } else {
        bits_int(bits, n - 1) + if n - 1 < bits.len() && bits[n - 1] is S1 {
            pow2((n - 1) as nat) as int
        } else {
            0
        }
    }
}

/// The low-bits value is bounded by the corresponding power of two.
pub proof fn lemma_bits_int_bound(bits: Seq<State>, n: int)
    requires
        n >= 0,
    ensures
        0 <= bits_int(bits, n) < pow2(n as nat),
    decreases n,
{
    if n == 0 {
        lemma2_to64();
    } else {
        lemma_bits_int_bound(bits, n - 1);
        lemma_pow2_unfold(n as nat);
    }
}

/// Entries at or past `bits.len()` contribute nothing: the value of
/// `n` bits equals the value of all bits once `n` covers the string.
pub proof fn lemma_bits_int_stable(bits: Seq<State>, n: int, m: int)
    requires
        bits.len() <= n <= m,
    ensures
        bits_int(bits, n) == bits_int(bits, m),
    decreases m - n,
{
    if n < m {
        lemma_bits_int_stable(bits, n, m - 1);
    }
}

/// Whether one of the first `n` entries of a bit-string is an
/// undefined state (`x` or `z`).
pub open spec fn has_undefined(bits: Seq<State>, n: int) -> bool {
    exists|j: int| #![trigger bits[j]] 0 <= j < n && (bits[j] is Sx || bits[j] is Sz)
}

/// Whether one of the first `n` characters of a text is a `1`.
pub open spec fn has_one(text: Seq<char>, n: int) -> bool {
    exists|j: int| #![trigger text[j]] 0 <= j < n && text[j] == '1'
}

/// A Verilog-style constant: a literal string or an integer with its
/// four-state bit-string, each carrying a leading state.
#[derive(Debug, Clone, PartialEq, Eq, Hash)]
pub enum Property {
    /// A literal string.
    Str(State, String),
    /// An integer: the cached low-64-bit value and the bit-string it
    /// was reconstructed from, low bit first.
    Int(State, i64, Vec<State>),
}

/// Copies a bit-string.
fn copy_states(bits: &Vec<State>) -> (r: Vec<State>)
    ensures
        r@ == bits@,
{
    let mut r: Vec<State> = Vec::new();
    let mut i: usize = 0;
    while i < bits.len()
        invariant
            i <= bits@.len(),
            r@ == bits@.subrange(0, i as int),
        decreases bits@.len() - i,
    {
        r.push(bits[i]);
        i += 1;
    }
    proof {
        assert(r@ =~= bits@);
    }
    r
}

/// Computes the cache an integer property must carry: the value of the
/// low 64 bits of its bit-string, reinterpreted as an `i64`.
fn compute_cache(bits: &Vec<State>) -> (r: i64)
    ensures
        r as u64 == bits_int(bits@, 64),
{
    let mut acc: u64 = 0;
    let mut i: usize = 0;
    let end: usize = if bits.len() < 64 {
        bits.len()
    } else {
        64
    };
    while i < end
        invariant
            i <= end,
            end <= bits@.len() || end == 64,
            end == if bits@.len() < 64 {
                bits@.len() as int
            } else {
                64
            },
            acc == bits_int(bits@, i as int),
        decreases end - i,
    {
        proof {
            lemma_bits_int_bound(bits@, i as int);
            lemma_u64_pow2_no_overflow(i as nat);
        }
        if bits[i].to_char() == '1' {
            proof {
                lemma_u64_shl_is_mul(1u64, i as u64);
                assert((acc | (1u64 << (i as u64))) == acc + (1u64 << (i as u64))) by (bit_vector)
                    requires
                        acc < (1u64 << (i as u64)),
                        i < 64u64,
                ;
            }
            acc = acc | (1u64 << (i as u64));
        }
        i += 1;
    }
    proof {
        if end < 64 {
            lemma_bits_int_stable(bits@, end as int, 64);
        }
        assert(acc as i64 as u64 == acc) by (bit_vector);
    }
    #[verifier::truncate] (acc as i64)
}

impl Property {
    /// The cache invariant of an integer property: the cached value,
    /// read as a machine word, reconstructs the low 64 bits of the
    /// bit-string.  Literal strings carry no cache.
    pub open spec fn wf(self) -> bool {
        match self {
            Property::Str(_state, _text) => true,
            Property::Int(_state, cached, bits) => cached as u64 == bits_int(bits@, 64),
        }
    }

    /// The zero-width integer property.
    pub fn empty_int() -> (r: Self)
        ensures
            r is Int,
            r->Int_0 == State::S0,
            r->Int_1 == 0i64,
            r->Int_2@ == Seq::<State>::empty(),
            r.wf(),
    {
        let bits: Vec<State> = Vec::new();
        proof {
            assert(bits@ =~= Seq::<State>::empty());
            assert(bits_int(bits@, 0) == 0);
            lemma_bits_int_stable(bits@, 0, 64);
        }
        Property::Int(State::S0, 0, bits)
    }

    /// Encodes the low `width` bits of `intval` as a `0`/`1`
    /// bit-string, low bit first, with the cache recomputed from that
    /// string.
    pub fn with_width(intval: i64, width: usize) -> (r: Self)
        requires
            width <= 64,
        ensures
            r is Int,
            r->Int_2@.len() == width,
            forall|i: int|
                0 <= i < width ==> r->Int_2@[i] == (if (intval as u64 >> (i as u64)) & 1 == 1 {
                    State::S1
                } else {
                    State::S0
                }),
            r->Int_0 == State::S0,
            r.wf(),
            width < 64 ==> r->Int_1 as u64 == (intval as u64) % (pow2(width as nat) as u64),
    {
        let uval = intval as u64;
        let mut bits: Vec<State> = Vec::new();
        let mut i: usize = 0;
        while i < width
            invariant
                i <= width,
                width <= 64,
                uval == intval as u64,
                bits@.len() == i,
                forall|j: int|
                    0 <= j < i ==> bits@[j] == (if (uval >> (j as u64)) & 1 == 1 {
                        State::S1
                    } else {
                        State::S0
                    }),
            decreases width - i,
        {
            if (uval >> (i as u64)) & 1 == 1 {
                bits.push(State::S1);
            } else {
                bits.push(State::S0);
            }
            i += 1;
        }
        let cached = compute_cache(&bits);
        proof {
            if width < 64 {
                lemma_property_bit_round_trip(intval, width as nat, bits@);
            }
        }
        Property::Int(State::S0, cached, bits)
    }

    /// A literal string property.
    pub fn with_str(strval: &str) -> (r: Self)
        ensures
            r is Str,
            r->Str_0 == State::S0,
            r->Str_1@ == strval@,
            r.wf(),
    {
        let text = strval.to_owned();
        Property::Str(State::S0, text)
    }

    /// The one-bit property holding the given state.
    pub fn with_state(bit: State) -> (r: Self)
        ensures
            r is Int,
            r->Int_0 == bit,
            r->Int_2@ == seq![bit],
            r->Int_1 == (if bit is S1 {
                1i64
            } else {
                0i64
            }),
            r.wf(),
    {
        let mut bits: Vec<State> = Vec::new();
        bits.push(bit);
        let cached: i64 = match bit {
            State::S1 => 1,
            _ => 0,
        };
        proof {
            lemma2_to64();
            assert(bits_int(bits@, 0) == 0);
            assert(bits_int(bits@, 64) == bits_int(bits@, 1)) by {
                lemma_bits_int_stable(bits@, 1, 64);
            }
        }
        Property::Int(bit, cached, bits)
    }

    /// The size of this property: bits for an integer, eight bits per
    /// byte of a literal string.
    pub fn size(&self) -> (r: usize)
        requires
            self is Str ==> self->Str_1@.len() * 8 <= usize::MAX,
        ensures
            r == match *self {
                Property::Str(_s, text) => 8 * text@.len(),
                Property::Int(_s, _c, bits) => bits@.len(),
            },
    {
        match self {
            Property::Str(_s, text) => 8 * text.as_str().unicode_len(),
            Property::Int(_s, _c, bits) => bits.len(),
        }
    }

    /// Recomputes the cached integer value from the bit-string.
    pub fn update_intval(&mut self)
        requires
            (*old(self)) is Int,
        ensures
            (*final(self)) is Int,
            (*final(self))->Int_0 == (*old(self))->Int_0,
            (*final(self))->Int_2@ == (*old(self))->Int_2@,
            (*final(self)).wf(),
    {
        let (state, bits) = match &*self {
            Property::Int(state, _cached, bits) => (*state, copy_states(bits)),
            Property::Str(state, _text) => {
                proof {
                    assert(false);
                }
                (*state, Vec::new())
            },
        };
        let cached = compute_cache(&bits);
        *self = Property::Int(state, cached, bits);
    }

    /// Whether every bit of this integer property is a defined `0` or
    /// `1`; `x` and `z` make it false.  A literal string has no
    /// undefined bits.
    pub fn is_fully_def(&self) -> (r: bool)
        ensures
            r == match *self {
                Property::Str(_s, _text) => true,
                Property::Int(_s, _c, bits) => !has_undefined(bits@, bits@.len() as int),
            },
    {
        match self {
            Property::Str(_s, _text) => true,
            Property::Int(_s, _c, bits) => {
                let mut i: usize = 0;
                while i < bits.len()
                    invariant
                        i <= bits@.len(),
                        !has_undefined(bits@, i as int),
                        *self is Int,
                        bits@ == (*self)->Int_2@,
                    decreases bits@.len() - i,
                {
                    let c = bits[i].to_char();
                    if c == 'x' || c == 'z' {
                        proof {
                            assert(bits@[i as int] is Sx || bits@[i as int] is Sz);
                            assert(has_undefined(bits@, bits@.len() as int));
                        }
                        return false;
                    }
                    proof {
                        assert(!(bits@[i as int] is Sx || bits@[i as int] is Sz));
                        assert(!has_undefined(bits@, i + 1));
                    }
                    i += 1;
                }
                true
            },
        }
    }

    /// Slices `len` bits of this integer property starting at `offset`,
    /// padding with the supplied state past the end of the bit-string,
    /// and recomputes the cache of the slice.
    pub fn extract(&self, offset: usize, len: usize, padding: State) -> (r: Self)
        requires
            self is Int,
            offset + len <= usize::MAX,
        ensures
            r is Int,
            r->Int_0 == State::S0,
            r->Int_2@.len() == len,
            forall|j: int|
                0 <= j < len ==> r->Int_2@[j] == (if offset + j < self->Int_2@.len() {
                    self->Int_2@[offset + j]
                } else {
                    padding
                }),
            r.wf(),
    {
        let bits = match self {
            Property::Int(_s, _c, bits) => bits,
            Property::Str(_s, _text) => {
                proof {
                    assert(false);
                }
                return Property::empty_int();
            },
        };
        let mut out: Vec<State> = Vec::new();
        let mut j: usize = 0;
        while j < len
            invariant
                j <= len,
                offset + len <= usize::MAX,
                out@.len() == j,
                bits@ == self->Int_2@,
                forall|k: int|
                    0 <= k < j ==> out@[k] == (if offset + k < bits@.len() {
                        bits@[offset + k]
                    } else {
                        padding
                    }),
            decreases len - j,
        {
            if offset + j < bits.len() {
                out.push(bits[offset + j]);
            } else {
                out.push(padding);
            }
            j += 1;
        }
        let cached = compute_cache(&out);
        Property::Int(State::S0, cached, out)
    }

    /// The integer value of this property; a literal string has none.
    pub fn as_int(&self) -> (r: Result<i64, PropertyError>)
        ensures
            match *self {
                Property::Int(_s, cached, _bits) => r == Ok::<i64, PropertyError>(cached),
                Property::Str(_s, _text) => r == Err::<i64, PropertyError>(
                    PropertyError::StringHasNoInt,
                ),
            },
    {
        match self {
            Property::Int(_s, cached, _bits) => Ok(*cached),
            Property::Str(_s, _text) => Err(PropertyError::StringHasNoInt),
        }
    }

    /// The literal text of this property; an integer has none.
    pub fn as_string(&self) -> (r: Result<String, PropertyError>)
        ensures
            match *self {
                Property::Str(_s, text) => match r {
                    Ok(t) => t@ == text@,
                    Err(_) => false,
                },
                Property::Int(_s, _c, _bits) => r == Err::<String, PropertyError>(
                    PropertyError::IntHasNoString,
                ),
            },
    {
        match self {
            Property::Str(_s, text) => Ok(text.clone()),
            Property::Int(_s, _c, _bits) => Err(PropertyError::IntHasNoString),
        }
    }

    /// The truth value of this property: an integer is true iff its
    /// cached value is nonzero, a literal string iff it contains a `1`.
    pub fn as_bool(&self) -> (r: bool)
        ensures
            r == match *self {
                Property::Int(_s, cached, _bits) => cached != 0,
                Property::Str(_s, text) => has_one(text@, text@.len() as int),
            },
    {
        match self {
            Property::Int(_s, cached, _bits) => *cached != 0,
            Property::Str(_s, text) => {
                let n = text.as_str().unicode_len();
                let mut i: usize = 0;
                while i < n
                    invariant
                        i <= n,
                        n == text@.len(),
                        !has_one(text@, i as int),
                        *self is Str,
                        text@ == (*self)->Str_1@,
                    decreases n - i,
                {
                    if text.as_str().get_char(i) == '1' {
                        proof {
                            assert(text@[i as int] == '1');
                            assert(has_one(text@, text@.len() as int));
                        }
                        return true;
                    }
                    proof {
                        assert(!has_one(text@, i + 1));
                    }
                    i += 1;
                }
                false
            },
        }
    }
}

impl Default for Property {
    /// The default property is the zero-width integer.
    fn default() -> (r: Self)
        ensures
            r is Int,
            r->Int_0 == State::S0,
            r->Int_1 == 0i64,
            r->Int_2@ == Seq::<State>::empty(),
            r.wf(),
    {
        Property::empty_int()
    }
}

/// Decoding the bit-string produced by `with_width(v, w)` through
/// `bits_int` reconstructs `v` modulo `2^w`, for every width below 64:
/// the premise is exactly what `with_width` promises of its bit-string.
pub proof fn lemma_property_bit_round_trip(v: i64, w: nat, bits: Seq<State>)
    requires
        w < 64,
        bits.len() == w,
        forall|i: int|
            0 <= i < w ==> bits[i] == (if (v as u64 >> (i as u64)) & 1 == 1 {
                State::S1
            } else {
                State::S0
            }),
    ensures
        bits_int(bits, 64) == (v as u64) % (pow2(w) as u64),
{
    let uv = v as u64;
    lemma_bits_round_trip_step(uv, bits, w as int, w);
    lemma_bits_int_stable(bits, w as int, 64);
    assert(bits_int(bits, w as int) == uv % (pow2(w) as u64));
}

/// Induction step of the round-trip proof: the value of the first `n`
/// encoded bits is `uv` modulo `2^n`.
proof fn lemma_bits_round_trip_step(uv: u64, bits: Seq<State>, n: int, w: nat)
    requires
        w < 64,
        0 <= n <= w,
        bits.len() == w,
        forall|i: int|
            0 <= i < w ==> bits[i] == (if (uv >> (i as u64)) & 1 == 1 {
                State::S1
            } else {
                State::S0
            }),
    ensures
        bits_int(bits, n) == uv % (pow2(n as nat) as u64),
    decreases n,
{
    lemma_u64_pow2_no_overflow(n as nat);
    if n == 0 {
        lemma2_to64();
        assert(uv % 1u64 == 0);
    } else {
        let i = n - 1;
        let iu = i as u64;
        lemma_bits_round_trip_step(uv, bits, i, w);
        lemma_u64_pow2_no_overflow(i as nat);
        lemma_u64_shr_is_div(uv, iu);
        // The examined bit is the parity of uv / 2^i.
        assert((uv >> iu) & 1 == (uv >> iu) % 2) by (bit_vector);
        let b: int = if bits[i] is S1 {
            1
        } else {
            0
        };
        assert(bits_int(bits, n) == bits_int(bits, i) + b * pow2(i as nat));
        assert((uv >> iu) as int == uv as int / pow2(i as nat) as int) by {
            assert((uv >> iu) as nat == uv as nat / pow2(i as nat));
        }
        assert((uv as int / pow2(i as nat) as int) % 2 == b);
        // Split uv mod 2^n into uv mod 2^i plus the bit's contribution.
        vstd::arithmetic::div_mod::lemma_mod_breakdown(
            uv as int,
            pow2(i as nat) as int,
            2,
        );
        assert(pow2(i as nat) * 2 == pow2(n as nat)) by {
            lemma_pow2_unfold(n as nat);
        }
        assert(uv as int % (pow2(n as nat) as int) == pow2(i as nat) * b + uv as int % (pow2(
            i as nat,
        ) as int));
        assert(uv % (pow2(n as nat) as u64) == uv as int % (pow2(n as nat) as int));
        assert(uv % (pow2(i as nat) as u64) == uv as int % (pow2(i as nat) as int));
    }
}

/// Whether `c` can appear in a bit-string.
pub open spec fn is_bit_char(c: char) -> bool {
    c == '0' || c == '1' || c == 'x' || c == 'z'
}

/// Whether, among the first `j` characters of `s`, the first `k` are
/// bit-string characters and the rest are spaces.
pub open spec fn bits_then_spaces_upto(s: Seq<char>, j: int, k: int) -> bool {
    &&& (forall|i: int| 0 <= i < k ==> is_bit_char(#[trigger] s[i]))
    &&& (forall|i: int| k <= i < j ==> #[trigger] s[i] == ' ')
}

/// Whether `s` could be mistaken for a bit-string when printed: some
/// prefix of bit-string characters followed only by spaces.
pub open spec fn looks_like_bits(s: Seq<char>) -> bool {
    exists|k: int| 0 <= k <= s.len() && #[trigger] bits_then_spaces_upto(s, s.len() as int, k)
}

/// Whether every character of `s` is a bit-string character.
pub open spec fn all_bit_chars(s: Seq<char>) -> bool {
    forall|i: int| 0 <= i < s.len() ==> is_bit_char(#[trigger] s[i])
}

impl Property {
    /// Renders this property: an integer prints its bit-string most
    /// significant bit first; a literal string prints as itself, with
    /// one trailing space appended whenever the text could be mistaken
    /// for a bit-string, so that parsing the result back is
    /// unambiguous.
    pub fn to_display_string(&self) -> (r: String)
        ensures
            match *self {
                Property::Str(_s, text) => r@ == if looks_like_bits(text@) {
                    text@.push(' ')
                } else {
                    text@
                },
                Property::Int(_s, _c, bits) => r@.len() == bits@.len() && (forall|i: int|
                    0 <= i < bits@.len() ==> r@[i] == state_char(
                        #[trigger] bits@[bits@.len() - 1 - i],
                    )),
            },
    {
        proof {
            reveal_strlit(" ");
            reveal_strlit("0");
            reveal_strlit("1");
            reveal_strlit("x");
            reveal_strlit("z");
        }
        match self {
            Property::Str(_s, text) => {
                let n = text.as_str().unicode_len();
                let mut state: u8 = 0;
                let mut j: usize = 0;
                while j < n
                    invariant
                        j <= n,
                        n == text@.len(),
                        *self is Str,
                        text@ == (*self)->Str_1@,
                        state == 0 || state == 1 || state == 2,
                        state == 0 ==> bits_then_spaces_upto(text@, j as int, j as int),
                        state == 1 ==> exists|k: int|
                            0 <= k < j && #[trigger] bits_then_spaces_upto(text@, j as int, k)
                                && text@[k] == ' ',
                        state == 2 ==> forall|k: int|
                            0 <= k <= j ==> !(#[trigger] bits_then_spaces_upto(
                                text@,
                                j as int,
                                k,
                            )),
                    decreases n - j,
                {
                    let c = text.as_str().get_char(j);
                    let is_bit = c == '0' || c == '1' || c == 'x' || c == 'z';
                    let jj = j;
                    if state == 0 {
                        if is_bit {
                            proof {
                                assert(bits_then_spaces_upto(text@, jj + 1, jj + 1));
                            }
                        } else if c == ' ' {
                            state = 1;
                            proof {
                                assert(bits_then_spaces_upto(text@, jj + 1, jj as int));
                                assert(text@[jj as int] == ' ');
                            }
                        } else {
                            state = 2;
                            proof {
                                assert forall|k: int| 0 <= k <= jj + 1 implies !(
                                #[trigger] bits_then_spaces_upto(text@, jj + 1, k)) by {
                                    if bits_then_spaces_upto(text@, jj + 1, k) {
                                        if k <= jj {
                                            assert(text@[jj as int] == ' ');
                                        } else {
                                            assert(is_bit_char(text@[jj as int]));
                                        }
                                    }
                                }
                            }
                        }
                    } else if state == 1 {
                        if c == ' ' {
                            proof {
                                let k = choose|k: int|
                                    0 <= k < jj && #[trigger] bits_then_spaces_upto(
                                        text@,
                                        jj as int,
                                        k,
                                    ) && text@[k] == ' ';
                                assert(bits_then_spaces_upto(text@, jj + 1, k));
                            }
                        } else {
                            state = 2;
                            proof {
                                let k0 = choose|k: int|
                                    0 <= k < jj && #[trigger] bits_then_spaces_upto(
                                        text@,
                                        jj as int,
                                        k,
                                    ) && text@[k] == ' ';
                                assert forall|k: int| 0 <= k <= jj + 1 implies !(
                                #[trigger] bits_then_spaces_upto(text@, jj + 1, k)) by {
                                    if bits_then_spaces_upto(text@, jj + 1, k) {
                                        if k <= jj {
                                            assert(text@[jj as int] == ' ');
                                        } else {
                                            assert(is_bit_char(text@[k0]));
                                        }
                                    }
                                }
                            }
                        }
                    } else {
                        proof {
                            assert forall|k: int| 0 <= k <= jj + 1 implies !(
                            #[trigger] bits_then_spaces_upto(text@, jj + 1, k)) by {
                                if bits_then_spaces_upto(text@, jj + 1, k) {
                                    if k <= jj {
                                        assert(bits_then_spaces_upto(text@, jj as int, k));
                                    } else {
                                        assert(bits_then_spaces_upto(text@, jj as int, jj as int));
                                    }
                                }
                            }
                        }
                    }
                    j += 1;
                }
                let mut result = text.clone();
                if state < 2 {
                    result.append(" ");
                    proof {
                        assert(looks_like_bits(text@));
                        assert(result@ =~= text@.push(' '));
                    }
                } else {
                    proof {
                        if looks_like_bits(text@) {
                            let k = choose|k: int|
                                0 <= k <= text@.len() && #[trigger] bits_then_spaces_upto(
                                    text@,
                                    text@.len() as int,
                                    k,
                                );
                            assert(false);
                        }
                    }
                }
                result
            },
            Property::Int(_s, _c, bits) => {
                let n = bits.len();
                let mut result = String::new();
                let mut i: usize = 0;
                while i < n
                    invariant
                        i <= n,
                        *self is Int,
                        bits@ == (*self)->Int_2@,
                        n == bits@.len(),
                        result@.len() == i,
                        forall|t: int|
                            0 <= t < i ==> result@[t] == state_char(
                                #[trigger] bits@[n - 1 - t],
                            ),
                    decreases n - i,
                {
                    proof {
                        reveal_strlit("0");
                        reveal_strlit("1");
                        reveal_strlit("x");
                        reveal_strlit("z");
                    }
                    let ghost before = result@;
                    match bits[n - 1 - i] {
                        State::S0 => result.append("0"),
                        State::S1 => result.append("1"),
                        State::Sx => result.append("x"),
                        State::Sz => result.append("z"),
                    }
                    proof {
                        assert(result@ =~= before.push(state_char(bits@[n - 1 - i])));
                    }
                    i += 1;
                }
                result
            },
        }
    }

    /// Parses a property back from its printed form: a string made
    /// only of bit-string characters is an integer (printed most
    /// significant bit first, so it is reversed back); a string of
    /// bit-string characters followed by at least one space is an
    /// escaped literal and loses exactly one trailing space; anything
    /// else is a literal as written.
    pub fn from_string(s: &str) -> (r: Self)
        ensures
            ({
                let sv = s@;
                if all_bit_chars(sv) {
                    &&& r is Int
                    &&& r->Int_0 == State::S0
                    &&& r->Int_2@.len() == sv.len()
                    &&& (forall|i: int|
                        0 <= i < sv.len() ==> char_state(#[trigger] sv[sv.len() - 1 - i]) == Some(
                            r->Int_2@[i],
                        ))
                    &&& r.wf()
                } else if looks_like_bits(sv) {
                    &&& r is Str
                    &&& r->Str_0 == State::S0
                    &&& r->Str_1@ == sv.subrange(0, sv.len() - 1)
                } else {
                    &&& r is Str
                    &&& r->Str_0 == State::S0
                    &&& r->Str_1@ == sv
                }
            }),
    {
        let n = s.unicode_len();
        let mut all_bits = true;
        let mut j: usize = 0;
        while j < n
            invariant
                j <= n,
                n == s@.len(),
                all_bits == (forall|i: int| 0 <= i < j ==> is_bit_char(#[trigger] s@[i])),
            decreases n - j,
        {
            let c = s.get_char(j);
            let is_bit = c == '0' || c == '1' || c == 'x' || c == 'z';
            if !is_bit {
                all_bits = false;
            }
            proof {
                if all_bits {
                    assert(forall|i: int| 0 <= i < j + 1 ==> is_bit_char(#[trigger] s@[i]));
                } else {
                    assert(exists|i: int| 0 <= i < j + 1 && !is_bit_char(#[trigger] s@[i]));
                }
            }
            j += 1;
        }
        if all_bits {
            let mut bits: Vec<State> = Vec::new();
            let mut i: usize = 0;
            while i < n
                invariant
                    i <= n,
                    n == s@.len(),
                    all_bit_chars(s@),
                    bits@.len() == i,
                    forall|t: int|
                        0 <= t < i ==> char_state(#[trigger] s@[n - 1 - t]) == Some(bits@[t]),
                decreases n - i,
            {
                let c = s.get_char(n - 1 - i);
                let st = match State::try_from_char(c) {
                    Ok(st) => st,
                    Err(_) => {
                        proof {
                            assert(is_bit_char(s@[n - 1 - i as int]));
                            assert(false);
                        }
                        State::S0
                    },
                };
                bits.push(st);
                i += 1;
            }
            let cached = compute_cache(&bits);
            return Property::Int(State::S0, cached, bits);
        }
        // Not all bit characters: decide whether it is an escaped
        // literal (bits then spaces) or a plain literal.
        let mut state: u8 = 0;
        let mut j2: usize = 0;
        while j2 < n
            invariant
                j2 <= n,
                n == s@.len(),
                state == 0 || state == 1 || state == 2,
                state == 0 ==> bits_then_spaces_upto(s@, j2 as int, j2 as int),
                state == 1 ==> exists|k: int|
                    0 <= k < j2 && #[trigger] bits_then_spaces_upto(s@, j2 as int, k) && s@[k]
                        == ' ',
                state == 2 ==> forall|k: int|
                    0 <= k <= j2 ==> !(#[trigger] bits_then_spaces_upto(s@, j2 as int, k)),
            decreases n - j2,
        {
            let c = s.get_char(j2);
            let is_bit = c == '0' || c == '1' || c == 'x' || c == 'z';
            let jj = j2;
            if state == 0 {
                if is_bit {
                    proof {
                        assert(bits_then_spaces_upto(s@, jj + 1, jj + 1));
                    }
                } else if c == ' ' {
                    state = 1;
                    proof {
                        assert(bits_then_spaces_upto(s@, jj + 1, jj as int));
                        assert(s@[jj as int] == ' ');
                    }
                } else {
                    state = 2;
                    proof {
                        assert forall|k: int| 0 <= k <= jj + 1 implies !(
                        #[trigger] bits_then_spaces_upto(s@, jj + 1, k)) by {
                            if bits_then_spaces_upto(s@, jj + 1, k) {
                                if k <= jj {
                                    assert(s@[jj as int] == ' ');
                                } else {
                                    assert(is_bit_char(s@[jj as int]));
                                }
                            }
                        }
                    }
                }
            } else if state == 1 {
                if c == ' ' {
                    proof {
                        let k = choose|k: int|
                            0 <= k < jj && #[trigger] bits_then_spaces_upto(s@, jj as int, k)
                                && s@[k] == ' ';
                        assert(bits_then_spaces_upto(s@, jj + 1, k));
                    }
                } else {
                    state = 2;
                    proof {
                        let k0 = choose|k: int|
                            0 <= k < jj && #[trigger] bits_then_spaces_upto(s@, jj as int, k)
                                && s@[k] == ' ';
                        assert forall|k: int| 0 <= k <= jj + 1 implies !(
                        #[trigger] bits_then_spaces_upto(s@, jj + 1, k)) by {
                            if bits_then_spaces_upto(s@, jj + 1, k) {
                                if k <= jj {
                                    assert(s@[jj as int] == ' ');
                                } else {
                                    assert(is_bit_char(s@[k0]));
                                }
                            }
                        }
                    }
                }
            } else {
                proof {
                    assert forall|k: int| 0 <= k <= jj + 1 implies !(
                    #[trigger] bits_then_spaces_upto(s@, jj + 1, k)) by {
                        if bits_then_spaces_upto(s@, jj + 1, k) {
                            if k <= jj {
                                assert(bits_then_spaces_upto(s@, jj as int, k));
                            } else {
                                assert(bits_then_spaces_upto(s@, jj as int, jj as int));
                            }
                        }
                    }
                }
            }
            j2 += 1;
        }
        if state < 2 {
            // Bits followed by at least one space: an escaped literal.
            proof {
                assert(looks_like_bits(s@));
                if state == 0 {
                    assert(all_bit_chars(s@));
                    assert(false);
                }
                let k = choose|k: int|
                    0 <= k < n && #[trigger] bits_then_spaces_upto(s@, n as int, k) && s@[k]
                        == ' ';
                assert(s@[n - 1] == ' ');
                assert(n >= 1);
            }
            let text = s.substring_char(0, n - 1);
            Property::Str(State::S0, text.to_owned())
        } else {
            proof {
                if looks_like_bits(s@) {
                    let k = choose|k: int|
                        0 <= k <= s@.len() && #[trigger] bits_then_spaces_upto(
                            s@,
                            s@.len() as int,
                            k,
                        );
                    assert(false);
                }
            }
            Property::Str(State::S0, s.to_owned())
        }
    }
}

/// A packed bit sequence, stored in a `bitvec::vec::BitVec`.  Verus
/// refuses a direct declaration of that generic type (its bounds are
/// traits of an outside crate), so the collection lives behind this
/// opaque struct, with its contents named by [`bit_vec_contents`].
#[verifier::external_body]
pub struct PackedBits {
    inner: bitvec::vec::BitVec,
}

/// The booleans a `PackedBits` holds, in order.
pub uninterp spec fn bit_vec_contents(v: PackedBits) -> Seq<bool>;

/// Relies on bitvec's `FromIterator<bool> for BitVec`: collecting an
/// iterator of booleans yields a bit-vector holding exactly those
/// booleans, in iteration order.
#[verifier::external_body]
fn bools_to_bitvec(bits: &Vec<bool>) -> (r: PackedBits)
    ensures
        bit_vec_contents(r) == bits@,
{
    PackedBits { inner: bits.iter().copied().collect() }
}

impl PackedBits {
    /// Relies on bitvec's `BitVec::len`: the number of bits held.
    #[verifier::external_body]
    pub fn len(&self) -> (r: usize)
        ensures
            r == bit_vec_contents(*self).len(),
    {
        self.inner.len()
    }

    /// Relies on bitvec's `BitSlice::get`: the bit at position `i`.
    #[verifier::external_body]
    pub fn get(&self, i: usize) -> (r: bool)
        requires
            i < bit_vec_contents(*self).len(),
        ensures
            r == bit_vec_contents(*self)[i as int],
    {
        match self.inner.get(i) {
            Some(b) => *b,
            None => false,
        }
    }
}

impl Property {
    /// The bits of this integer property as a packed bit-vector: entry
    /// `i` is true iff bit `i` of the bit-string is `1`.  A literal
    /// string has no bits.
    pub fn to_bitvec(&self) -> (r: Result<PackedBits, PropertyError>)
        ensures
            match r {
                Ok(v) => {
                    &&& *self is Int
                    &&& bit_vec_contents(v).len() == (*self)->Int_2@.len()
                    &&& (forall|i: int|
                        0 <= i < (*self)->Int_2@.len() ==> bit_vec_contents(v)[i] == ((
                        #[trigger] (*self)->Int_2@[i]) is S1))
                },
                Err(e) => *self is Str && e == PropertyError::StringHasNoBits,
            },
    {
        let bits = match self {
            Property::Int(_s, _c, bits) => bits,
            Property::Str(_s, _text) => {
                return Err(PropertyError::StringHasNoBits);
            },
        };
        let mut bools: Vec<bool> = Vec::new();
        let mut i: usize = 0;
        while i < bits.len()
            invariant
                i <= bits@.len(),
                *self is Int,
                bits@ == (*self)->Int_2@,
                bools@.len() == i,
                forall|t: int| 0 <= t < i ==> bools@[t] == ((#[trigger] bits@[t]) is S1),
            decreases bits@.len() - i,
        {
            let c = bits[i].to_char();
            bools.push(c == '1');
            i += 1;
        }
        Ok(bools_to_bitvec(&bools))
    }
}

} // verus!
