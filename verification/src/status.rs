//! The operation-status object: a server-reported outcome descriptor that is
//! distinct from a domain object, together with its verified wire codec.
//!
//! On the wire a status is the JSON object
//! `{"kind":"Status","code":NNN,"message":"...","reason":"..."}` with a
//! three-digit code and unescaped string fields. The `"kind":"Status"`
//! member is the discriminating field the deletion resolver inspects.

use vstd::prelude::*;

use crate::bytes::{
    bytes_clean, check_clean, find_byte, find_from, lemma_find_from_first, lemma_find_from_some,
    match_at, matches_at, push_all, subvec, QUOTE,
};
use crate::resource::KubeObject;
use crate::Error;

verus! {

/// A server-reported outcome descriptor (code, message, reason).
#[derive(Debug, PartialEq, Eq)]
pub struct Status {
    /// Numeric outcome code, in the HTTP range `100..=999`.
    pub code: u16,
    /// Human-readable description of the outcome.
    pub message: Vec<u8>,
    /// Machine-readable reason for the outcome.
    pub reason: Vec<u8>,
}

/// The abstract value of a [`Status`].
#[verifier::ext_equal]
pub struct StatusView {
    /// Numeric outcome code.
    pub code: u16,
    /// Human-readable description of the outcome.
    pub message: Seq<u8>,
    /// Machine-readable reason for the outcome.
    pub reason: Seq<u8>,
}

impl View for Status {
    type V = StatusView;

    open spec fn view(&self) -> StatusView {
        StatusView { code: self.code, message: self.message@, reason: self.reason@ }
    }
}

/// The bytes of `{"kind":"Status","code":`.
pub open spec fn status_prefix() -> Seq<u8> {
    seq![
        '{' as u8, '"' as u8, 'k' as u8, 'i' as u8, 'n' as u8, 'd' as u8, '"' as u8, ':' as u8,
        '"' as u8, 'S' as u8, 't' as u8, 'a' as u8, 't' as u8, 'u' as u8, 's' as u8, '"' as u8,
        ',' as u8, '"' as u8, 'c' as u8, 'o' as u8, 'd' as u8, 'e' as u8, '"' as u8, ':' as u8,
    ]
}

/// The bytes of `,"message":"`.
pub open spec fn message_prefix() -> Seq<u8> {
    seq![
        ',' as u8, '"' as u8, 'm' as u8, 'e' as u8, 's' as u8, 's' as u8, 'a' as u8, 'g' as u8,
        'e' as u8, '"' as u8, ':' as u8, '"' as u8,
    ]
}

/// The bytes of `","reason":"`.
pub open spec fn reason_prefix() -> Seq<u8> {
    seq![
        '"' as u8, ',' as u8, '"' as u8, 'r' as u8, 'e' as u8, 'a' as u8, 's' as u8, 'o' as u8,
        'n' as u8, '"' as u8, ':' as u8, '"' as u8,
    ]
}

/// The bytes of the closing `"}`.
pub open spec fn str_end() -> Seq<u8> {
    seq!['"' as u8, '}' as u8]
}

/// Builds the bytes of `{"kind":"Status","code":`.
pub fn status_prefix_vec() -> (v: Vec<u8>)
    ensures
        v@ == status_prefix(),
{
    let mut v: Vec<u8> = Vec::new();
    v.push('{' as u8);
    v.push('"' as u8);
    v.push('k' as u8);
    v.push('i' as u8);
    v.push('n' as u8);
    v.push('d' as u8);
    v.push('"' as u8);
    v.push(':' as u8);
    v.push('"' as u8);
    v.push('S' as u8);
    v.push('t' as u8);
    v.push('a' as u8);
    v.push('t' as u8);
    v.push('u' as u8);
    v.push('s' as u8);
    v.push('"' as u8);
    v.push(',' as u8);
    v.push('"' as u8);
    v.push('c' as u8);
    v.push('o' as u8);
    v.push('d' as u8);
    v.push('e' as u8);
    v.push('"' as u8);
    v.push(':' as u8);
    proof {
        assert(v@ =~= status_prefix());
    }
    v
}

/// Builds the bytes of `,"message":"`.
pub fn message_prefix_vec() -> (v: Vec<u8>)
    ensures
        v@ == message_prefix(),
{
    let mut v: Vec<u8> = Vec::new();
    v.push(',' as u8);
    v.push('"' as u8);
    v.push('m' as u8);
    v.push('e' as u8);
    v.push('s' as u8);
    v.push('s' as u8);
    v.push('a' as u8);
    v.push('g' as u8);
    v.push('e' as u8);
    v.push('"' as u8);
    v.push(':' as u8);
    v.push('"' as u8);
    proof {
        assert(v@ =~= message_prefix());
    }
    v
}

/// Builds the bytes of `","reason":"`.
pub fn reason_prefix_vec() -> (v: Vec<u8>)
    ensures
        v@ == reason_prefix(),
{
    let mut v: Vec<u8> = Vec::new();
    v.push('"' as u8);
    v.push(',' as u8);
    v.push('"' as u8);
    v.push('r' as u8);
    v.push('e' as u8);
    v.push('a' as u8);
    v.push('s' as u8);
    v.push('o' as u8);
    v.push('n' as u8);
    v.push('"' as u8);
    v.push(':' as u8);
    v.push('"' as u8);
    proof {
        assert(v@ =~= reason_prefix());
    }
    v
}

/// Builds the bytes of the closing `"}`.
pub fn str_end_vec() -> (v: Vec<u8>)
    ensures
        v@ == str_end(),
{
    let mut v: Vec<u8> = Vec::new();
    v.push('"' as u8);
    v.push('}' as u8);
    proof {
        assert(v@ =~= str_end());
    }
    v
}

/// The three decimal digit bytes of a code.
pub open spec fn code_digits(code: u16) -> Seq<u8> {
    seq![
        (48 + (code as int) / 100) as u8,
        (48 + ((code as int) / 10) % 10) as u8,
        (48 + (code as int) % 10) as u8,
    ]
}

/// The digit bytes of a code in `100..=999` are decimal digits (the first
/// nonzero), and reassembling them gives the code back.
pub proof fn lemma_code_digits(code: u16)
    requires
        100 <= code <= 999,
    ensures
        49 <= code_digits(code)[0] <= 57,
        48 <= code_digits(code)[1] <= 57,
        48 <= code_digits(code)[2] <= 57,
        100 * (code_digits(code)[0] - 48) + 10 * (code_digits(code)[1] - 48) + (code_digits(
            code,
        )[2] - 48) == code,
{
    let c = code as int;
    vstd::arithmetic::div_mod::lemma_fundamental_div_mod(c, 10);
    vstd::arithmetic::div_mod::lemma_fundamental_div_mod(c / 10, 10);
    vstd::arithmetic::div_mod::lemma_div_denominator(c, 10, 10);
    vstd::arithmetic::div_mod::lemma_div_is_ordered(100, c, 100);
    vstd::arithmetic::div_mod::lemma_div_is_ordered(c, 999, 100);
    vstd::arithmetic::div_mod::lemma_mod_bound(c, 10);
    vstd::arithmetic::div_mod::lemma_mod_bound(c / 10, 10);
}

impl KubeObject for Status {
    /// Valid statuses: three-digit code, unescaped string fields.
    open spec fn obj_wf(v: StatusView) -> bool {
        &&& 100 <= v.code <= 999
        &&& bytes_clean(v.message)
        &&& bytes_clean(v.reason)
    }

    open spec fn encode_of(v: StatusView) -> Seq<u8> {
        status_prefix() + code_digits(v.code) + message_prefix() + v.message + reason_prefix()
            + v.reason + str_end()
    }

    open spec fn decode_of(s: Seq<u8>) -> Option<StatusView> {
        if s.len() < 27 {
            None
        } else if !matches_at(s, 0, status_prefix()) {
            None
        } else if !(49 <= s[24] <= 57 && 48 <= s[25] <= 57 && 48 <= s[26] <= 57) {
            None
        } else if !matches_at(s, 27, message_prefix()) {
            None
        } else {
            match find_from(s, QUOTE, 39) {
                Option::None => None,
                Option::Some(m_end) => if !matches_at(s, m_end, reason_prefix()) {
                    None
                } else if s.len() < m_end + 14 {
                    None
                } else {
                    let message = s.subrange(39, m_end);
                    let reason = s.subrange(m_end + 12, s.len() - 2);
                    if matches_at(s, s.len() - 2, str_end()) && bytes_clean(message)
                        && bytes_clean(reason) {
                        Some(
                            StatusView {
                                code: (100 * (s[24] - 48) + 10 * (s[25] - 48) + (s[26]
                                    - 48)) as u16,
                                message,
                                reason,
                            },
                        )
                    } else {
                        None
                    }
                },
            }
        }
    }

    fn encode(&self) -> (r: Result<Vec<u8>, Error>) {
        if self.code < 100 || self.code > 999 || !check_clean(self.message.as_slice())
            || !check_clean(self.reason.as_slice()) {
            return Err(Error::SerializationError);
        }
        let mut v = status_prefix_vec();
        v.push((48 + self.code / 100) as u8);
        v.push((48 + (self.code / 10) % 10) as u8);
        v.push((48 + self.code % 10) as u8);
        let p = message_prefix_vec();
        push_all(&mut v, p.as_slice());
        push_all(&mut v, self.message.as_slice());
        let p = reason_prefix_vec();
        push_all(&mut v, p.as_slice());
        push_all(&mut v, self.reason.as_slice());
        let p = str_end_vec();
        push_all(&mut v, p.as_slice());
        proof {
            assert(v@ =~= Self::encode_of(self@));
        }
        Ok(v)
    }

    fn decode(s: &[u8]) -> (r: Option<Status>) {
        if s.len() < 27 {
            return None;
        }
        let p = status_prefix_vec();
        if !match_at(s, 0, p.as_slice()) {
            return None;
        }
        let d0 = s[24];
        let d1 = s[25];
        let d2 = s[26];
        if !(49 <= d0 && d0 <= 57 && 48 <= d1 && d1 <= 57 && 48 <= d2 && d2 <= 57) {
            return None;
        }
        let p = message_prefix_vec();
        if !match_at(s, 27, p.as_slice()) {
            return None;
        }
        match find_byte(s, QUOTE, 39) {
            Option::None => None,
            Option::Some(m_end) => {
                proof {
                    lemma_find_from_some(s@, QUOTE, 39);
                }
                let p = reason_prefix_vec();
                if !match_at(s, m_end, p.as_slice()) {
                    return None;
                }
                if s.len() < 14 || m_end > s.len() - 14 {
                    proof {
                        assert(s@.len() < m_end + 14);
                    }
                    return None;
                }
                let message = subvec(s, 39, m_end);
                let reason = subvec(s, m_end + 12, s.len() - 2);
                let p = str_end_vec();
                if !match_at(s, s.len() - 2, p.as_slice()) {
                    return None;
                }
                if !check_clean(message.as_slice()) || !check_clean(reason.as_slice()) {
                    return None;
                }
                let code = 100 * ((d0 - 48) as u16) + 10 * ((d1 - 48) as u16) + ((d2 - 48) as u16);
                Some(Status { code, message, reason })
            },
        }
    }

    proof fn lemma_decode_wf(s: Seq<u8>) {
        if Self::decode_of(s) is Some {
            lemma_find_from_some(s, QUOTE, 39);
        }
    }

    proof fn lemma_round_trip(v: StatusView) {
        let e = Self::encode_of(v);
        let m = v.message.len() as int;
        lemma_code_digits(v.code);
        assert(status_prefix().len() == 24);
        assert(code_digits(v.code).len() == 3);
        assert(message_prefix().len() == 12);
        assert(reason_prefix().len() == 12);
        assert(str_end().len() == 2);
        assert(e.len() == 53 + m + v.reason.len());
        assert(matches_at(e, 0, status_prefix())) by {
            assert(e.subrange(0, 24) =~= status_prefix());
        }
        assert(e[24] == code_digits(v.code)[0]);
        assert(e[25] == code_digits(v.code)[1]);
        assert(e[26] == code_digits(v.code)[2]);
        assert(matches_at(e, 27, message_prefix())) by {
            assert(e.subrange(27, 39) =~= message_prefix());
        }
        assert(find_from(e, QUOTE, 39) == Some(39 + m)) by {
            assert(forall|j: int| 39 <= j < 39 + m ==> e[j] == v.message[j - 39]);
            assert(e[39 + m] == QUOTE);
            lemma_find_from_first(e, QUOTE, 39, 39 + m);
        }
        assert(matches_at(e, 39 + m, reason_prefix())) by {
            assert(e.subrange(39 + m, 51 + m) =~= reason_prefix());
        }
        assert(e.subrange(39, 39 + m) =~= v.message);
        assert(e.subrange(51 + m, e.len() - 2) =~= v.reason);
        assert(matches_at(e, e.len() - 2, str_end())) by {
            assert(e.subrange(e.len() - 2, e.len() as int) =~= str_end());
        }
        assert(Self::decode_of(e) matches Some(d) && d =~= v);
    }
}

} // verus!
