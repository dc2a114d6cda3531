use vstd::prelude::*;
use vstd::utf8::encode_utf8;

verus! {

/// Why a run ends before the compiled routine is called.
#[derive(Clone, Copy, Debug, PartialEq, Eq, Structural)]
pub enum DriverError {
    /// No positional argument was given.
    ArgumentMissing,
    /// The argument is not an unsigned 64-bit decimal number.
    ArgumentParse,
    /// The backend could not hand out the entry routine.
    CompilationFailure,
}

/// How hard the backend optimises, from not at all to aggressively.
#[derive(Clone, Copy, Debug, PartialEq, Eq, Structural)]
pub enum OptLevel {
    Unoptimized,
    Less,
    Moderate,
    Aggressive,
}

impl OptLevel {
    /// The level used where none is asked for: the most aggressive one.
    pub fn standard() -> (level: OptLevel)
        ensures
            level == OptLevel::Aggressive,
    {
        OptLevel::Aggressive
    }
}

impl DriverError {
    /// The diagnostic that goes with the error. A compilation failure names the entry
    /// routine's symbol.
    pub fn diagnostic(self) -> (text: &'static str)
        ensures
            text@ == (match self {
                DriverError::ArgumentMissing => "missing argument: expected an index"@,
                DriverError::ArgumentParse => "invalid argument: expected an unsigned 64-bit decimal index"@,
                DriverError::CompilationFailure => "unable to compile `main`"@,
            }),
    {
        match self {
            DriverError::ArgumentMissing => "missing argument: expected an index",
            DriverError::ArgumentParse => "invalid argument: expected an unsigned 64-bit decimal index",
            DriverError::CompilationFailure => "unable to compile `main`",
        }
    }
}

/// Whether a byte is an ASCII decimal digit.
pub open spec fn is_digit(b: u8) -> bool {
    48 <= b <= 57
}

/// Whether every byte is an ASCII decimal digit.
pub open spec fn all_digits(s: Seq<u8>) -> bool {
    forall|i: int| 0 <= i < s.len() ==> is_digit(#[trigger] s[i])
}

/// The number that a run of decimal digits writes, most significant digit first.
pub open spec fn digits_value(s: Seq<u8>) -> nat
    decreases s.len(),
{
    if s.len() == 0 {
        0
    } else {
        digits_value(s.drop_last()) * 10 + (s.last() - 48) as nat
    }
}

/// The index that a text denotes: an optional `+`, then one or more decimal digits
/// whose value fits 64 bits. Any other text denotes none.
pub open spec fn decimal(s: Seq<u8>) -> Option<u64> {
    let digits = if s.len() > 0 && s[0] == 43 {
        s.skip(1)
    } else {
        s
    };
    if digits.len() > 0 && all_digits(digits) && digits_value(digits) <= u64::MAX {
        Some(digits_value(digits) as u64)
    } else {
        None
    }
}

/// A run of digits is worth at least as much as any of its prefixes.
proof fn lemma_prefix_value(s: Seq<u8>, k: int)
    requires
        0 <= k <= s.len(),
        all_digits(s),
    ensures
        digits_value(s.take(k)) <= digits_value(s),
    decreases s.len(),
{
    if k == s.len() {
        assert(s.take(k) =~= s);
    } else {
        assert(s.drop_last().take(k) =~= s.take(k));
        lemma_prefix_value(s.drop_last(), k);
    }
}

/// Reads an index from a text, by the bytes of its UTF-8 encoding.
pub fn parse_index(text: &str) -> (out: Option<u64>)
    ensures
        out == decimal(encode_utf8(text@)),
{
    let bytes = text.as_bytes();
    let n: usize = bytes.len();
    let start: usize = if n > 0 && bytes[0] == 43 {
        1
    } else {
        0
    };
    if start == n {
        return None;
    }
    let ghost digits = bytes@.skip(start as int);
    proof {
        assert(bytes@.skip(0) =~= bytes@);
    }
    let mut acc: u64 = 0;
    let mut i: usize = start;
    while i < n
        invariant
            start <= i <= n,
            start < n,
            n == bytes@.len(),
            bytes@ == encode_utf8(text@),
            digits == bytes@.skip(start as int),
            digits == (if bytes@.len() > 0 && bytes@[0] == 43 {
                bytes@.skip(1)
            } else {
                bytes@
            }),
            all_digits(digits.take(i - start)),
            acc == digits_value(digits.take(i - start)),
        decreases n - i,
    {
        let b: u8 = bytes[i];
        if b < 48 || b > 57 {
            assert(!is_digit(digits[i - start]));
            return None;
        }
        let d: u64 = (b - 48) as u64;
        let ghost longer = digits.take(i + 1 - start);
        proof {
            assert(longer.drop_last() =~= digits.take(i - start));
            assert(longer.last() == b);
        }
        if acc > (u64::MAX - d) / 10 {
            proof {
                if all_digits(digits) {
                    lemma_prefix_value(digits, i + 1 - start);
                }
            }
            return None;
        }
        acc = acc * 10 + d;
        i = i + 1;
    }
    proof {
        assert(digits.take(n - start) =~= digits);
    }
    Some(acc)
}

/// Picks the index out of the process arguments, the program's name first: the first
/// argument after the name, read as a decimal number. What follows it is not looked at.
pub fn select_index(args: &Vec<String>) -> (out: Result<u64, DriverError>)
    ensures
        out == (if args@.len() < 2 {
            Err::<u64, DriverError>(DriverError::ArgumentMissing)
        } else {
            match decimal(encode_utf8(args@[1]@)) {
                Some(index) => Ok(index),
                None => Err(DriverError::ArgumentParse),
            }
        }),
{
    if args.len() < 2 {
        return Err(DriverError::ArgumentMissing);
    }
    match parse_index(args[1].as_str()) {
        Some(index) => Ok(index),
        None => Err(DriverError::ArgumentParse),
    }
}

} // verus!
