//! Parsing of the binary instruction format.
//!
//! The input is a text stream, one line per instruction word, each line
//! exactly sixteen characters of `0`/`1`, most significant bit first;
//! the final newline is optional. Line order defines program address
//! order.

use vstd::prelude::*;
use vstd::arithmetic::power2::pow2;

verus! {

broadcast use vstd::string::group_string_axioms;

/// A binary digit character.
pub open spec fn is_bit_char(c: char) -> bool {
    c == '0' || c == '1'
}

/// A well-formed program text: lines of exactly sixteen binary digits,
/// each line closed by a newline, the final newline optional.
pub open spec fn wf_mc(s: Seq<char>) -> bool {
    &&& s.len() % 17 == 0 || s.len() % 17 == 16
    &&& forall|i: int|
        0 <= i < s.len() ==> if i % 17 == 16 {
            #[trigger] s[i] == '\n'
        } else {
            is_bit_char(s[i])
        }
}

/// How many instruction words a well-formed program text holds.
pub open spec fn mc_word_count(s: Seq<char>) -> nat {
    ((s.len() + 1) / 17) as nat
}

/// The digits of line `k` of a well-formed program text.
pub open spec fn mc_line(s: Seq<char>, k: int) -> Seq<char> {
    s.subrange(17 * k, 17 * k + 16)
}

/// The instruction words of a well-formed program text, in line order.
pub open spec fn mc_words(s: Seq<char>) -> Seq<u16> {
    Seq::new(mc_word_count(s) as nat, |k: int| bin_val(mc_line(s, k)) as u16)
}

/// The value of a sequence of binary digits, most significant first.
pub open spec fn bin_val(bits: Seq<char>) -> nat
    decreases bits.len(),
{
    if bits.len() == 0 {
        0
    } else {
        2 * bin_val(bits.drop_last()) + (if bits.last() == '1' {
            1nat
        } else {
            0
        })
    }
}

/// Parses a well-formed program text into its instruction words, one
/// word per line, in line order.
pub fn parse_mc_file(src: &str) -> (r: Vec<u16>)
    requires
        wf_mc(src@),
        src@.len() <= usize::MAX,
    ensures
        r@.len() == mc_word_count(src@),
        forall|k: int| 0 <= k < r@.len() ==> r@[k] == bin_val(mc_line(src@, k)),
        r@ == mc_words(src@),
{
    proof {
        assert(src.is_ascii()) by {
            assert forall|i: int| 0 <= i < src@.len() implies '\0' <= #[trigger] src@[i]
                <= '\u{7f}' by {
                assert(src@[i] == '\n' || is_bit_char(src@[i]));
            }
        }
    }
    let len = src.len();
    proof {
        vstd::string::is_ascii_spec_bytes(src);
        assert(len == src@.len());
        vstd::arithmetic::power2::lemma2_to64();
    }
    let mut out: Vec<u16> = Vec::new();
    let mut pos: usize = 0;
    while pos < len
        invariant
            wf_mc(src@),
            src.is_ascii(),
            len == src@.len(),
            pos % 17 == 0,
            pos <= len + 1,
            out@.len() * 17 == pos,
            forall|k: int| 0 <= k < out@.len() ==> out@[k] == bin_val(mc_line(src@, k)),
        decreases len + 17 - pos,
    {
        proof {
            assert((len - pos) % 17 == len % 17) by {
                vstd::arithmetic::div_mod::lemma_mod_multiples_vanish(
                    -((pos / 17) as int),
                    len as int,
                    17,
                );
            }
            assert(pos + 16 <= len);
        }
        let mut word: u16 = 0;
        let mut j: usize = 0;
        proof {
            vstd::arithmetic::power2::lemma2_to64();
            assert(src@.subrange(pos as int, pos as int).len() == 0);
        }
        while j < 16
            invariant
                wf_mc(src@),
                src.is_ascii(),
                len == src@.len(),
                pos % 17 == 0,
                pos + 16 <= len,
                j <= 16,
                word == bin_val(src@.subrange(pos as int, pos + j)),
                word < pow2(j as nat),
            decreases 16 - j,
        {
            proof {
                assert((pos + j) % 17 == j) by {
                    vstd::arithmetic::div_mod::lemma_mod_multiples_vanish(
                        (pos / 17) as int,
                        j as int,
                        17,
                    );
                }
                assert(is_bit_char(src@[pos + j]));
                vstd::arithmetic::power2::lemma2_to64();
                if (j as nat) < 15 {
                    vstd::arithmetic::power2::lemma_pow2_strictly_increases(j as nat, 15);
                }
                vstd::arithmetic::power2::lemma_pow2_unfold((j + 1) as nat);
            }
            let c = src.get_ascii(pos + j);
            let bit: u16 = if c == 49 {
                1
            } else {
                0
            };
            proof {
                let prefix = src@.subrange(pos as int, pos + j);
                let next = src@.subrange(pos as int, pos + j + 1);
                assert(next.drop_last() =~= prefix);
                assert(next.last() == src@[pos + j]);
                assert(bit == 1 <==> src@[pos + j] == '1');
            }
            word = 2 * word + bit;
            j += 1;
        }
        proof {
            let k = out@.len() as int;
            assert(mc_line(src@, k) =~= src@.subrange(pos as int, pos + 16));
        }
        out.push(word);
        pos += 17;
    }
    proof {
        if len % 17 == 0 {
            assert(pos == len);
        } else {
            assert(pos == len + 1);
        }
        assert(out@.len() == mc_word_count(src@));
        assert(out@ =~= mc_words(src@));
    }
    out
}

} // verus!
