//! Account identifiers: seven characters over an alphabet of sixty-two,
//! handed out along a full-period linear permutation of the code space.

use vstd::prelude::*;
use vstd::string::*;
use vstd::hash_map::*;
use crate::error::BlockchainError;
use crate::random::os_random_u64;

verus! {

/// The alphabet of a code, in the order of its digits' values.
pub const CHARSET: &'static str = "0123456789abcdefghijklmnopqrstuvwxyzABCDEFGHIJKLMNOPQRSTUVWXYZ";

/// Size of the alphabet.
pub const N: u64 = 62;

/// Length of every code.
pub const CODE_LEN: usize = 7;

/// Size of the code space, 62 to the power 7.
pub const MODULUS: u64 = 3_521_614_606_208;

/// How many candidates `generate` tries before it gives up.
pub const MAX_ATTEMPTS: u64 = 10;

/// How many multipliers `new` draws before it gives up.
pub const MAX_DRAWS: u64 = 128;

/// The character of the alphabet with value `d`.
pub open spec fn code_char(d: int) -> char {
    CHARSET@[d]
}

/// The last `width` base-62 digits of `x`, most significant first.
pub open spec fn base62(x: nat, width: nat) -> Seq<char>
    decreases width,
{
    if width == 0 {
        Seq::<char>::empty()
    } else {
        base62(x / 62, (width - 1) as nat).push(code_char((x % 62) as int))
    }
}

/// The code of `x`: its seven base-62 digits, zero-padded on the left.
pub open spec fn code_of(x: nat) -> Seq<char> {
    base62(x, CODE_LEN as nat)
}

/// The characters of the digits in `least_first`, the last one first.
pub open spec fn digits_code(least_first: Seq<u8>) -> Seq<char> {
    Seq::new(least_first.len(), |i: int| code_char(least_first[least_first.len() - 1 - i] as int))
}

/// A numeral of `width` digits has `width` characters.
pub proof fn lemma_base62_len(x: nat, width: nat)
    ensures
        base62(x, width).len() == width,
    decreases width,
{
    if width > 0 {
        lemma_base62_len(x / 62, (width - 1) as nat);
    }
}

/// Convert a number to its seven-character base-62 code.
pub fn to_code(x: u64) -> (code: String)
    ensures
        code@ == code_of(x as nat),
        code@.len() == CODE_LEN,
{
    proof {
        reveal_strlit("0123456789abcdefghijklmnopqrstuvwxyzABCDEFGHIJKLMNOPQRSTUVWXYZ");
        lemma_base62_len(x as nat, CODE_LEN as nat);
    }
    let mut least_first: Vec<u8> = Vec::new();
    let mut rest: u64 = x;
    let mut left: usize = CODE_LEN;
    while left > 0
        invariant
            forall|i: int| 0 <= i < least_first@.len() ==> least_first@[i] < 62,
            least_first@.len() + left == CODE_LEN,
            code_of(x as nat) == base62(rest as nat, left as nat) + digits_code(least_first@),
        decreases left,
    {
        let ghost earlier = least_first@;
        let ghost whole = rest;
        least_first.push((rest % N) as u8);
        rest = rest / N;
        left = left - 1;
        assert(base62(whole as nat, (left + 1) as nat) == base62(rest as nat, left as nat).push(
            code_char((whole % 62) as int),
        ));
        assert(base62(rest as nat, left as nat).push(code_char((whole % 62) as int)) + digits_code(
            earlier,
        ) =~= base62(rest as nat, left as nat) + digits_code(least_first@));
    }
    assert(code_of(x as nat) =~= digits_code(least_first@));
    let mut code = String::new();
    let mut done: usize = 0;
    while done < CODE_LEN
        invariant
            done <= CODE_LEN,
            least_first@.len() == CODE_LEN,
            forall|i: int| 0 <= i < least_first@.len() ==> least_first@[i] < 62,
            code@ == digits_code(least_first@).subrange(0, done as int),
            CHARSET.is_ascii(),
            CHARSET@.len() == 62,
        decreases CODE_LEN - done,
    {
        let d = least_first[CODE_LEN - 1 - done] as usize;
        let piece = CHARSET.substring_ascii(d, d + 1);
        assert(piece@ =~= seq![code_char(d as int)]);
        code.append(piece);
        assert(code@ =~= digits_code(least_first@).subrange(0, done as int + 1));
        done += 1;
    }
    assert(digits_code(least_first@).subrange(0, CODE_LEN as int) =~= digits_code(least_first@));
    code
}

/// What a generator is, apart from how it stores it.
pub struct GeneratorModel {
    /// How many candidates have been drawn, modulo 2^64.
    pub counter: u64,
    /// The multiplier `a` of the permutation.
    pub multiplier: u64,
    /// The offset `b` of the permutation.
    pub offset: u64,
    /// Every code that was issued or reserved.
    pub used: Set<Seq<char>>,
}

/// Whether `a` has no factor in common with the size of the code space,
/// whose only prime factors are 2 and 31.
pub open spec fn coprime_to_modulus(a: nat) -> bool {
    a % 2 == 1 && a % 31 != 0
}

/// The number that the permutation assigns to `counter`.
pub open spec fn permuted(a: nat, b: nat, counter: nat) -> nat {
    (a * counter + b) % (MODULUS as nat)
}

/// The counter after `counter`, wrapping at 2^64.
pub open spec fn next_counter(counter: u64) -> u64 {
    if counter == u64::MAX {
        0
    } else {
        (counter + 1) as u64
    }
}

impl GeneratorModel {
    /// The code that the next draw proposes.
    pub open spec fn candidate(self) -> Seq<char> {
        code_of(permuted(self.multiplier as nat, self.offset as nat, self.counter as nat))
    }

    /// The model after one draw that was thrown away.
    pub open spec fn skip(self) -> GeneratorModel {
        GeneratorModel { counter: next_counter(self.counter), ..self }
    }

    /// The model after `code` was marked as used.
    pub open spec fn reserve(self, code: Seq<char>) -> GeneratorModel {
        GeneratorModel { used: self.used.insert(code), ..self }
    }

    /// What `generate` does with at most `tries` draws: the model afterwards
    /// and the code issued, if one of the draws was free.
    pub open spec fn generate(self, tries: nat) -> (GeneratorModel, Option<Seq<char>>)
        decreases tries,
    {
        if tries == 0 {
            (self, None)
        } else if !self.used.contains(self.candidate()) {
            (self.skip().reserve(self.candidate()), Some(self.candidate()))
        } else {
            self.skip().generate((tries - 1) as nat)
        }
    }
}

/// A code that is issued was free before and is in use afterwards; nothing
/// else enters the set, and the constants stay.
pub proof fn lemma_issue_is_fresh(model: GeneratorModel, tries: nat)
    ensures
        model.generate(tries).0.multiplier == model.multiplier,
        model.generate(tries).0.offset == model.offset,
        match model.generate(tries).1 {
            Some(code) => !model.used.contains(code) && model.generate(tries).0.used
                == model.used.insert(code) && code.len() == CODE_LEN,
            None => model.generate(tries).0.used == model.used,
        },
    decreases tries,
{
    if tries > 0 {
        if !model.used.contains(model.candidate()) {
            lemma_base62_len(
                permuted(model.multiplier as nat, model.offset as nat, model.counter as nat),
                CODE_LEN as nat,
            );
        } else {
            lemma_issue_is_fresh(model.skip(), (tries - 1) as nat);
        }
    }
}

/// A reserved code is never issued: a code that is in use is not what
/// `generate` returns, and it stays in use.
pub proof fn lemma_reserved_never_issued(model: GeneratorModel, code: Seq<char>, tries: nat)
    requires
        model.used.contains(code),
    ensures
        model.generate(tries).1 != Some(code),
        model.generate(tries).0.used.contains(code),
{
    lemma_issue_is_fresh(model, tries);
}

/// Struct to hold the generator state for unique wallet addresses.
pub struct UniqueCodeGenerator {
    counter: u64,
    a: u64,
    b: u64,
    used_codes: StringHashMap<bool>,
}

impl View for UniqueCodeGenerator {
    type V = GeneratorModel;

    closed spec fn view(&self) -> GeneratorModel {
        GeneratorModel {
            counter: self.counter,
            multiplier: self.a,
            offset: self.b,
            used: self.used_codes@.dom(),
        }
    }
}

impl UniqueCodeGenerator {
    /// The multiplier is coprime with the size of the code space and the
    /// offset lies inside it.
    pub open spec fn wf(&self) -> bool {
        &&& coprime_to_modulus(self@.multiplier as nat)
        &&& self@.offset < MODULUS
    }

    /// A generator with the given constants, if the multiplier is coprime
    /// with the size of the code space. The offset is reduced into the space.
    pub fn with_constants(multiplier: u64, offset: u64) -> (made: Option<Self>)
        ensures
            made is Some <==> coprime_to_modulus(multiplier as nat),
            made matches Some(g) ==> g.wf() && g@ == (GeneratorModel {
                counter: 0,
                multiplier,
                offset: (offset % MODULUS) as u64,
                used: Set::<Seq<char>>::empty(),
            }),
    {
        if multiplier % 2 != 0 && multiplier % 31 != 0 {
            let g = UniqueCodeGenerator {
                counter: 0,
                a: multiplier,
                b: offset % MODULUS,
                used_codes: StringHashMap::new(),
            };
            assert(g@.used =~= Set::<Seq<char>>::empty());
            Some(g)
        } else {
            None
        }
    }

    /// Initialize with constants drawn from the operating system's
    /// randomness. A multiplier is drawn until one is coprime with the size
    /// of the code space, at most `MAX_DRAWS` times.
    pub fn new() -> (made: Result<Self, BlockchainError>)
        ensures
            made matches Ok(g) ==> g.wf() && g@.counter == 0 && g@.used
                == Set::<Seq<char>>::empty(),
            made matches Err(e) ==> e == BlockchainError::GenerationExhausted,
    {
        let mut draws: u64 = 0;
        while draws < MAX_DRAWS
            invariant
                draws <= MAX_DRAWS,
            decreases MAX_DRAWS - draws,
        {
            let multiplier = os_random_u64();
            let offset = os_random_u64();
            match Self::with_constants(multiplier, offset) {
                Some(g) => {
                    return Ok(g);
                },
                None => {},
            }
            draws += 1;
        }
        Err(BlockchainError::GenerationExhausted)
    }

    /// Generate the next unique code: the first of the next `MAX_ATTEMPTS`
    /// candidates that is not in use. Each candidate moves the counter on.
    pub fn generate(&mut self) -> (issued: Result<String, BlockchainError>)
        requires
            old(self).wf(),
        ensures
            final(self).wf(),
            final(self)@ == old(self)@.generate(MAX_ATTEMPTS as nat).0,
            match issued {
                Ok(code) => {
                    &&& old(self)@.generate(MAX_ATTEMPTS as nat).1 == Some(code@)
                    &&& code@.len() == CODE_LEN
                    &&& !old(self)@.used.contains(code@)
                    &&& final(self)@.used == old(self)@.used.insert(code@)
                },
                Err(e) => {
                    &&& e == BlockchainError::GenerationExhausted
                    &&& old(self)@.generate(MAX_ATTEMPTS as nat).1 is None
                    &&& final(self)@.used == old(self)@.used
                },
            },
    {
        let mut tried: u64 = 0;
        while tried < MAX_ATTEMPTS
            invariant
                tried <= MAX_ATTEMPTS,
                self.wf(),
                old(self)@.generate(MAX_ATTEMPTS as nat) == self@.generate(
                    (MAX_ATTEMPTS - tried) as nat,
                ),
            decreases MAX_ATTEMPTS - tried,
        {
            let ghost before = self@;
            let a = self.a as u128;
            let c = self.counter as u128;
            assert(a * c <= 0xffff_ffff_ffff_ffff * 0xffff_ffff_ffff_ffff) by (nonlinear_arith)
                requires
                    a <= 0xffff_ffff_ffff_ffff,
                    c <= 0xffff_ffff_ffff_ffff,
            ;
            let x = ((a * c + self.b as u128) % (MODULUS as u128)) as u64;
            self.counter = self.counter.wrapping_add(1);
            let code = to_code(x);
            assert(code@ == before.candidate());
            assert(self@ == before.skip());
            if !self.used_codes.contains_key(code.as_str()) {
                self.used_codes.insert(code.clone(), true);
                assert(self@ == before.skip().reserve(code@));
                proof {
                    lemma_issue_is_fresh(old(self)@, MAX_ATTEMPTS as nat);
                }
                return Ok(code);
            }
            tried += 1;
        }
        proof {
            lemma_issue_is_fresh(old(self)@, MAX_ATTEMPTS as nat);
        }
        Err(BlockchainError::GenerationExhausted)
    }

    /// Reserve a specific code to prevent it from being generated.
    pub fn reserve_code(&mut self, code: &str)
        ensures
            final(self)@ == old(self)@.reserve(code@),
            final(self).wf() == old(self).wf(),
    {
        self.used_codes.insert(code.to_owned(), true);
        assert(self@.used =~= old(self)@.used.insert(code@));
    }

    /// Tells whether `code` was issued or reserved.
    pub fn is_used(&self, code: &str) -> (r: bool)
        ensures
            r == self@.used.contains(code@),
    {
        self.used_codes.contains_key(code)
    }
}

} // verus!
