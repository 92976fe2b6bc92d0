use crate::error::TofndError;
use vstd::prelude::*;
use vstd::utf8::{encode_utf8, encode_utf8_decode_utf8};

verus! {

/// The port that the daemon listens on when none is given.
pub const DEFAULT_PORT: u16 = 50051;

/// How the daemon deviates from the keygen protocol.
#[derive(Debug, Clone, Copy, PartialEq, Eq, Structural)]
pub enum KeygenBehaviour {
    Honest,
    R1BadCommit,
}

/// How the daemon deviates from the signing protocol; some deviations
/// target one other party, the victim.
#[derive(Debug, Clone, Copy, PartialEq, Eq, Structural)]
pub enum SignBehaviour {
    Honest,
    R1BadProof { victim: usize },
    R2FalseAccusation { victim: usize },
    R2BadMta { victim: usize },
    R2BadMtaWc { victim: usize },
    R3FalseAccusationMta { victim: usize },
    R3FalseAccusationMtaWc { victim: usize },
    R3BadProof,
    R4BadReveal,
    R5BadProof { victim: usize },
    R6BadProof,
    R6FalseAccusation { victim: usize },
    R7BadSI,
}

/// The signing behaviour that a name selects, with `victim` as its target
/// where it has one; `None` for a name outside the accepted set.
pub open spec fn behaviour_of(name: Seq<char>, victim: usize) -> Option<SignBehaviour> {
    if name == "Honest"@ {
        Some(SignBehaviour::Honest)
    } else if name == "R1BadProof"@ {
        Some(SignBehaviour::R1BadProof { victim })
    } else if name == "R2FalseAccusation"@ {
        Some(SignBehaviour::R2FalseAccusation { victim })
    } else if name == "R2BadMta"@ {
        Some(SignBehaviour::R2BadMta { victim })
    } else if name == "R2BadMtaWc"@ {
        Some(SignBehaviour::R2BadMtaWc { victim })
    } else if name == "R3FalseAccusationMta"@ {
        Some(SignBehaviour::R3FalseAccusationMta { victim })
    } else if name == "R3FalseAccusationMtaWc"@ {
        Some(SignBehaviour::R3FalseAccusationMtaWc { victim })
    } else if name == "R3BadProof"@ {
        Some(SignBehaviour::R3BadProof)
    } else if name == "R4BadReveal"@ {
        Some(SignBehaviour::R4BadReveal)
    } else if name == "R5BadProof"@ {
        Some(SignBehaviour::R5BadProof { victim })
    } else if name == "R6BadProof"@ {
        Some(SignBehaviour::R6BadProof)
    } else if name == "R6FalseAccusation"@ {
        Some(SignBehaviour::R6FalseAccusation { victim })
    } else if name == "R7BadSigSummand"@ {
        Some(SignBehaviour::R7BadSI)
    } else {
        None
    }
}

/// The names that select a signing behaviour.
pub open spec fn is_behaviour_name(name: Seq<char>) -> bool {
    behaviour_of(name, 0) is Some
}

fn str_equal(a: &str, b: &str) -> (r: bool)
    ensures
        r == (a@ == b@),
{
    let x = a.as_bytes();
    let y = b.as_bytes();
    proof {
        encode_utf8_decode_utf8(a@);
        encode_utf8_decode_utf8(b@);
    }
    if x.len() != y.len() {
        return false;
    }
    let mut i: usize = 0;
    while i < x.len()
        invariant
            x@ == encode_utf8(a@),
            y@ == encode_utf8(b@),
            x@.len() == y@.len(),
            0 <= i <= x@.len(),
            forall|j: int| 0 <= j < i ==> x@[j] == y@[j],
        decreases x@.len() - i,
    {
        if x[i] != y[i] {
            return false;
        }
        i = i + 1;
    }
    assert(x@ =~= y@);
    true
}

/// Whether `name` selects a signing behaviour.
pub fn is_behaviour(name: &str) -> (r: bool)
    ensures
        r == is_behaviour_name(name@),
{
    str_equal(name, "Honest") || str_equal(name, "R1BadProof") || str_equal(
        name,
        "R2FalseAccusation",
    ) || str_equal(name, "R2BadMta") || str_equal(name, "R2BadMtaWc") || str_equal(
        name,
        "R3FalseAccusationMta",
    ) || str_equal(name, "R3FalseAccusationMtaWc") || str_equal(name, "R3BadProof") || str_equal(
        name,
        "R4BadReveal",
    ) || str_equal(name, "R5BadProof") || str_equal(name, "R6BadProof") || str_equal(
        name,
        "R6FalseAccusation",
    ) || str_equal(name, "R7BadSigSummand")
}

/// Maps an accepted behaviour name to its signing behaviour, with `victim`
/// as the target of the deviations that have one.
pub fn match_string_to_behaviour(behaviour: &str, victim: usize) -> (r: SignBehaviour)
    requires
        is_behaviour_name(behaviour@),
    ensures
        behaviour_of(behaviour@, victim) == Some(r),
{
    if str_equal(behaviour, "Honest") {
        SignBehaviour::Honest
    } else if str_equal(behaviour, "R1BadProof") {
        SignBehaviour::R1BadProof { victim }
    } else if str_equal(behaviour, "R2FalseAccusation") {
        SignBehaviour::R2FalseAccusation { victim }
    } else if str_equal(behaviour, "R2BadMta") {
        SignBehaviour::R2BadMta { victim }
    } else if str_equal(behaviour, "R2BadMtaWc") {
        SignBehaviour::R2BadMtaWc { victim }
    } else if str_equal(behaviour, "R3FalseAccusationMta") {
        SignBehaviour::R3FalseAccusationMta { victim }
    } else if str_equal(behaviour, "R3FalseAccusationMtaWc") {
        SignBehaviour::R3FalseAccusationMtaWc { victim }
    } else if str_equal(behaviour, "R3BadProof") {
        SignBehaviour::R3BadProof
    } else if str_equal(behaviour, "R4BadReveal") {
        SignBehaviour::R4BadReveal
    } else if str_equal(behaviour, "R5BadProof") {
        SignBehaviour::R5BadProof { victim }
    } else if str_equal(behaviour, "R6BadProof") {
        SignBehaviour::R6BadProof
    } else if str_equal(behaviour, "R6FalseAccusation") {
        SignBehaviour::R6FalseAccusation { victim }
    } else {
        SignBehaviour::R7BadSI
    }
}

/// A nonempty run of ASCII decimal digits.
pub open spec fn is_digits(d: Seq<u8>) -> bool {
    d.len() > 0 && forall|i: int| 0 <= i < d.len() ==> 48 <= #[trigger] d[i] <= 57
}

/// The number that a run of decimal digits writes, most significant first.
pub open spec fn digits_value(d: Seq<u8>) -> nat
    decreases d.len(),
{
    if d.len() == 0 {
        0
    } else {
        digits_value(d.drop_last()) * 10 + (d.last() - 48) as nat
    }
}

/// The digits of an unsigned number as std reads it: one leading `+` is
/// allowed.
pub open spec fn unsigned_digits(b: Seq<u8>) -> Seq<u8> {
    if b.len() > 0 && b[0] == 43 {
        b.drop_first()
    } else {
        b
    }
}

/// The unsigned number that the bytes write, if it is at most `max`.
pub open spec fn parse_unsigned_spec(b: Seq<u8>, max: nat) -> Option<nat> {
    let d = unsigned_digits(b);
    if is_digits(d) && digits_value(d) <= max {
        Some(digits_value(d))
    } else {
        None
    }
}

proof fn lemma_digits_value_grows(d: Seq<u8>, i: int)
    requires
        0 <= i <= d.len(),
    ensures
        digits_value(d.take(i)) <= digits_value(d),
    decreases d.len() - i,
{
    if i < d.len() {
        lemma_digits_value_grows(d, i + 1);
        assert(d.take(i + 1).drop_last() =~= d.take(i));
    } else {
        assert(d.take(i) =~= d);
    }
}

/// Reads a decimal number of at most `max` from `b`, as std's `parse` does
/// for an unsigned integer type whose largest value is `max`.
pub fn parse_unsigned(b: &[u8], max: u64) -> (r: Option<u64>)
    requires
        max >= 9,
    ensures
        match r {
            Some(v) => parse_unsigned_spec(b@, max as nat) == Some(v as nat),
            None => parse_unsigned_spec(b@, max as nat) is None,
        },
{
    let start: usize = if b.len() > 0 && b[0] == 43u8 {
        1
    } else {
        0
    };
    let ghost d = unsigned_digits(b@);
    assert(d =~= b@.subrange(start as int, b@.len() as int));
    if start == b.len() {
        return None;
    }
    let mut acc: u64 = 0;
    let mut i: usize = start;
    while i < b.len()
        invariant
            d == unsigned_digits(b@),
            d =~= b@.subrange(start as int, b@.len() as int),
            start < b@.len(),
            start <= i <= b@.len(),
            max >= 9,
            forall|j: int| 0 <= j < i - start ==> 48 <= #[trigger] d[j] <= 57,
            acc as nat == digits_value(d.take(i - start)),
            acc <= max,
        decreases b@.len() - i,
    {
        let c = b[i];
        if c < 48u8 || c > 57u8 {
            assert(d[i - start] == c);
            return None;
        }
        let dig = (c - 48u8) as u64;
        assert(d.take(i + 1 - start).drop_last() =~= d.take(i - start));
        assert(d.take(i + 1 - start).last() == c);
        if acc > (max - dig) / 10 {
            proof {
                assert(acc * 10 + dig > max) by (nonlinear_arith)
                    requires
                        acc > (max - dig) / 10,
                        dig <= 9,
                        max >= 9,
                ;
                lemma_digits_value_grows(d, i + 1 - start);
            }
            return None;
        }
        assert(acc * 10 + dig <= max) by (nonlinear_arith)
            requires
                acc <= (max - dig) / 10,
                dig <= 9,
                max >= 9,
        ;
        acc = acc * 10 + dig;
        i = i + 1;
    }
    assert(d.take(d.len() as int) =~= d);
    Some(acc)
}

/// Reads a port number; fails with `Parse` where the text is not one.
pub fn parse_port(s: &str) -> (r: Result<u16, TofndError>)
    ensures
        match r {
            Ok(p) => parse_unsigned_spec(encode_utf8(s@), 65535) == Some(p as nat),
            Err(e) => e == TofndError::Parse && parse_unsigned_spec(encode_utf8(s@), 65535) is None,
        },
{
    match parse_unsigned(s.as_bytes(), 65535) {
        Some(v) => Ok(v as u16),
        None => Err(TofndError::Parse),
    }
}

/// Reads a victim index; fails with `Parse` where the text is not one.
pub fn parse_victim(s: &str) -> (r: Result<usize, TofndError>)
    ensures
        match r {
            Ok(v) => parse_unsigned_spec(encode_utf8(s@), usize::MAX as nat) == Some(v as nat),
            Err(e) => e == TofndError::Parse && parse_unsigned_spec(
                encode_utf8(s@),
                usize::MAX as nat,
            ) is None,
        },
{
    match parse_unsigned(s.as_bytes(), usize::MAX as u64) {
        Some(v) => Ok(v as usize),
        None => Err(TofndError::Parse),
    }
}

/// The startup configuration that the arguments select: the port, then, in
/// a malicious run, a behaviour name and a victim index. `None` where an
/// argument is refused.
pub open spec fn config_of(
    port: Option<Seq<char>>,
    malicious: Option<(Seq<char>, Seq<char>)>,
) -> Option<(u16, KeygenBehaviour, SignBehaviour)> {
    let parsed = match port {
        None => Some(DEFAULT_PORT as nat),
        Some(p) => parse_unsigned_spec(encode_utf8(p), 65535),
    };
    match parsed {
        None => None,
        Some(p) => match malicious {
            None => Some((p as u16, KeygenBehaviour::R1BadCommit, SignBehaviour::Honest)),
            Some((name, victim)) => {
                if !is_behaviour_name(name) {
                    None
                } else {
                    match parse_unsigned_spec(encode_utf8(victim), usize::MAX as nat) {
                        None => None,
                        Some(v) => match behaviour_of(name, v as usize) {
                            Some(b) => Some((p as u16, KeygenBehaviour::R1BadCommit, b)),
                            None => None,
                        },
                    }
                }
            },
        },
    }
}

/// The text of the optional port argument, as a value.
pub open spec fn port_view(port: Option<&str>) -> Option<Seq<char>> {
    match port {
        Some(p) => Some(p@),
        None => None,
    }
}

/// The text of the optional malicious arguments, as values.
pub open spec fn malicious_view(malicious: Option<(&str, &str)>) -> Option<(Seq<char>, Seq<char>)> {
    match malicious {
        Some((name, victim)) => Some((name@, victim@)),
        None => None,
    }
}

/// Turns the optional port argument (the default port where it is absent)
/// and the optional malicious arguments (behaviour name, victim index) into
/// the daemon's configuration. A refused port, behaviour name or victim
/// index gives `Parse`.
pub fn parse_config(port: Option<&str>, malicious: Option<(&str, &str)>) -> (r: Result<
    (u16, KeygenBehaviour, SignBehaviour),
    TofndError,
>)
    ensures
        match r {
            Ok(c) => config_of(port_view(port), malicious_view(malicious)) == Some(c),
            Err(e) => e == TofndError::Parse && config_of(
                port_view(port),
                malicious_view(malicious),
            ) is None,
        },
{
    let port = match port {
        None => DEFAULT_PORT,
        Some(text) => match parse_port(text) {
            Ok(p) => p,
            Err(e) => return Err(e),
        },
    };
    let keygen_behaviour = KeygenBehaviour::R1BadCommit;
    match malicious {
        None => Ok((port, keygen_behaviour, SignBehaviour::Honest)),
        Some((name, victim)) => {
            if !is_behaviour(name) {
                return Err(TofndError::Parse);
            }
            let victim = match parse_victim(victim) {
                Ok(v) => v,
                Err(e) => return Err(e),
            };
            Ok((port, keygen_behaviour, match_string_to_behaviour(name, victim)))
        },
    }
}

} // verus!
