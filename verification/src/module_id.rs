use vstd::prelude::*;
use vstd::string::StringSliceAdditionalSpecFns;
use crate::error::PipelineError;

verus! {

/// A module handle named on the command line as `address::name`: the
/// account address decoded from its hexadecimal text, and the module
/// name's bytes. Stands in for the chain's own module-id type, holding
/// exactly what the command surface reads of it.
#[derive(Clone, Debug)]
pub struct ModuleIdWrapper {
    pub address: Vec<u8>,
    pub name: Vec<u8>,
}

/// A `::` separator starts at byte `i`.
pub open spec fn is_sep_at(b: Seq<u8>, i: int) -> bool {
    0 <= i && i + 2 <= b.len() && b[i] == 58 && b[i + 1] == 58
}

/// Byte `i` starts the leftmost `::` separator.
pub open spec fn first_sep(b: Seq<u8>, i: int) -> bool {
    is_sep_at(b, i) && (forall|j: int| 0 <= j < i ==> !is_sep_at(b, j))
}

/// An ASCII hexadecimal digit.
pub open spec fn is_hex_digit(x: u8) -> bool {
    (48 <= x <= 57) || (97 <= x <= 102) || (65 <= x <= 70)
}

/// The value of an ASCII hexadecimal digit.
pub open spec fn nibble_val(x: u8) -> u8
    recommends
        is_hex_digit(x),
{
    if 48 <= x <= 57 {
        (x - 48) as u8
    } else if 97 <= x <= 102 {
        (x - 87) as u8
    } else {
        (x - 55) as u8
    }
}

/// The address text with an optional leading `0x` removed.
pub open spec fn strip_0x(b: Seq<u8>) -> Seq<u8> {
    if b.len() >= 2 && b[0] == 48 && b[1] == 120 {
        b.skip(2)
    } else {
        b
    }
}

/// Acceptable address digits: between one and 64 hexadecimal digits.
pub open spec fn valid_address_digits(d: Seq<u8>) -> bool {
    0 < d.len() <= 64 && (forall|i: int| 0 <= i < d.len() ==> is_hex_digit(d[i]))
}

/// The bytes an address's digit text denotes: digits are paired from the
/// right, so an odd-length text contributes its leading digit alone as
/// the first byte.
pub open spec fn decode_addr(d: Seq<u8>) -> Seq<u8> {
    Seq::new(
        (d.len() + 1) / 2,
        |i: int| if d.len() % 2 == 1 && i == 0 {
            nibble_val(d[0])
        } else if d.len() % 2 == 1 {
            (nibble_val(d[2 * i - 1]) * 16 + nibble_val(d[2 * i])) as u8
        } else {
            (nibble_val(d[2 * i]) * 16 + nibble_val(d[2 * i + 1])) as u8
        },
    )
}

/// A byte that may start a module name.
pub open spec fn is_ident_start(x: u8) -> bool {
    (97 <= x <= 122) || (65 <= x <= 90) || x == 95
}

/// A byte that may continue a module name.
pub open spec fn is_ident_byte(x: u8) -> bool {
    is_ident_start(x) || (48 <= x <= 57)
}

/// A well-formed module name: nonempty, starting with a letter or an
/// underscore and continuing with letters, digits or underscores.
pub open spec fn valid_identifier(n: Seq<u8>) -> bool {
    n.len() > 0 && is_ident_start(n[0]) && (forall|i: int| 0 <= i < n.len() ==> is_ident_byte(n[i]))
}

/// A well-formed module id text: an acceptable address, the leftmost
/// `::`, and a well-formed name.
pub open spec fn valid_module_id(b: Seq<u8>) -> bool {
    exists|i: int|
        first_sep(b, i) && valid_address_digits(strip_0x(b.take(i))) && valid_identifier(
            b.skip(i + 2),
        )
}

/// The leftmost separator position is unique.
pub proof fn lemma_first_sep_unique(b: Seq<u8>, i: int, j: int)
    requires
        first_sep(b, i),
        first_sep(b, j),
    ensures
        i == j,
{
}

fn nib(x: u8) -> (r: u8)
    requires
        is_hex_digit(x),
    ensures
        r == nibble_val(x),
{
    if x <= 57 {
        x - 48
    } else if x >= 97 {
        x - 87
    } else {
        x - 55
    }
}

impl ModuleIdWrapper {
    /// Parses `address::name` into a module handle: the text before the
    /// leftmost `::` is read as a hexadecimal account address with an
    /// optional `0x` prefix, the text after it as the module name. Any
    /// other shape is rejected as malformed input.
    #[verifier::loop_isolation(false)]
    #[verifier::rlimit(60)]
    pub fn from_str(s: &str) -> (r: Result<ModuleIdWrapper, PipelineError>)
        ensures
            r is Ok <==> valid_module_id(s.spec_bytes()),
            r matches Ok(m) ==> forall|i: int|
                first_sep(s.spec_bytes(), i) ==> (m.address@ == decode_addr(
                    strip_0x(s.spec_bytes().take(i)),
                ) && m.name@ == s.spec_bytes().skip(i + 2)),
            r is Err ==> r === Err(PipelineError::ParseError),
    {
        let b = s.as_bytes();
        let n = b.len();
        let ghost bs = s.spec_bytes();

        // Find the leftmost `::`.
        let mut i: usize = 0;
        let mut found = false;
        while !found && n >= 2 && i <= n - 2
            invariant
                0 <= i <= n,
                !found ==> forall|j: int| 0 <= j < i ==> !is_sep_at(bs, j),
                found ==> first_sep(bs, i as int),
            decreases n - i + (if found { 0int } else { 1int }),
        {
            if b[i] == 58 && b[i + 1] == 58 {
                found = true;
            } else {
                i += 1;
            }
        }
        if !found {
            proof {
                assert(forall|j: int| !is_sep_at(bs, j));
            }
            return Err(PipelineError::ParseError);
        }
        let sep = i;
        proof {
            assert(first_sep(bs, sep as int));
            assert forall|l: int| first_sep(bs, l) implies l == sep as int by {
                lemma_first_sep_unique(bs, l, sep as int);
            }
        }

        // Address digits, past an optional `0x` prefix.
        let start: usize = if sep >= 2 && b[0] == 48 && b[1] == 120 {
            2
        } else {
            0
        };
        let ghost digits = strip_0x(bs.take(sep as int));
        proof {
            assert(digits =~= bs.subrange(start as int, sep as int));
        }
        let dlen = sep - start;
        if dlen == 0 || dlen > 64 {
            proof {
                assert(!valid_address_digits(digits));
            }
            return Err(PipelineError::ParseError);
        }
        let mut j = start;
        while j < sep
            invariant
                start <= j <= sep,
                forall|l: int| start <= l < j ==> is_hex_digit(bs[l]),
            decreases sep - j,
        {
            let x = b[j];
            if !(x >= 48 && x <= 57 || x >= 97 && x <= 102 || x >= 65 && x <= 70) {
                proof {
                    assert(digits[j - start as int] == bs[j as int]);
                    assert(!valid_address_digits(digits));
                }
                return Err(PipelineError::ParseError);
            }
            j += 1;
        }
        proof {
            assert forall|l: int| 0 <= l < digits.len() implies is_hex_digit(digits[l]) by {
                assert(digits[l] == bs[start as int + l]);
            }
            assert(valid_address_digits(digits));
        }

        // Decode the digits, pairing from the right.
        let odd = dlen % 2 == 1;
        let mut address: Vec<u8> = Vec::new();
        let mut j = start;
        if odd {
            address.push(nib(b[j]));
            j += 1;
        }
        while j < sep
            invariant
                start <= j <= sep,
                j - start == (if odd { 1int } else { 0int }) + 2 * (address@.len() - (
                if odd {
                    1int
                } else {
                    0int
                })),
                address@.len() >= (if odd { 1int } else { 0int }),
                (j - start) % 2 == (if odd { 1int } else { 0int }),
                forall|l: int| 0 <= l < address@.len() ==> address@[l] == decode_addr(digits)[l],
            decreases sep - j,
        {
            proof {
                assert(digits[j - start as int] == bs[j as int]);
                assert(digits[j + 1 - start as int] == bs[j as int + 1]);
            }
            let hi = nib(b[j]);
            let lo = nib(b[j + 1]);
            address.push(hi * 16 + lo);
            j += 2;
        }
        proof {
            assert(address@.len() == decode_addr(digits).len());
            assert(address@ =~= decode_addr(digits));
        }

        // The module name after the separator.
        let mut name: Vec<u8> = Vec::new();
        let mut j = sep + 2;
        let ghost name_bytes = bs.skip(sep as int + 2);
        if j >= n {
            proof {
                assert(name_bytes.len() == 0);
                assert(!valid_identifier(name_bytes));
            }
            return Err(PipelineError::ParseError);
        }
        while j < n
            invariant
                sep + 2 <= j <= n,
                name@.len() == j - sep - 2,
                forall|l: int| 0 <= l < name@.len() ==> name@[l] == name_bytes[l],
                forall|l: int| 0 <= l < name@.len() ==> is_ident_byte(name_bytes[l]),
                name@.len() > 0 ==> is_ident_start(name_bytes[0]),
            decreases n - j,
        {
            let x = b[j];
            if j == sep + 2 {
                if !(x >= 97 && x <= 122 || x >= 65 && x <= 90 || x == 95) {
                    proof {
                        assert(name_bytes[0] == bs[j as int]);
                        assert(!is_ident_start(name_bytes[0]));
                        assert(!valid_identifier(name_bytes));
                    }
                    return Err(PipelineError::ParseError);
                }
            } else {
                if !(x >= 97 && x <= 122 || x >= 65 && x <= 90 || x == 95 || x >= 48 && x <= 57) {
                    proof {
                        assert(name_bytes[j - sep as int - 2] == bs[j as int]);
                        assert(!is_ident_byte(name_bytes[j - sep as int - 2]));
                        assert(!valid_identifier(name_bytes));
                    }
                    return Err(PipelineError::ParseError);
                }
            }
            name.push(x);
            j += 1;
        }
        proof {
            assert(name@ =~= name_bytes);
            assert(valid_identifier(name_bytes));
            assert(valid_module_id(bs));
        }
        Ok(ModuleIdWrapper { address, name })
    }
}

} // verus!
