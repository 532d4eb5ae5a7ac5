use vstd::prelude::*;

verus! {

/// The upper-case hexadecimal digit for `d`.
pub open spec fn hex_upper(d: int) -> char {
    "0123456789ABCDEF"@[d]
}

/// A character the `application/x-www-form-urlencoded` serializer passes
/// through unchanged.
pub open spec fn is_form_unreserved(c: char) -> bool {
    ||| ('0' <= c && c <= '9')
    ||| ('A' <= c && c <= 'Z')
    ||| ('a' <= c && c <= 'z')
    ||| c == '*' || c == '-' || c == '.' || c == '_'
}

/// One character of form-urlencoded output: unreserved characters stay,
/// a space becomes `+`, anything else becomes `%XX`. Stated for ASCII
/// text, whose characters are its bytes; callers require that.
pub open spec fn form_encoded_char(c: char) -> Seq<char> {
    if is_form_unreserved(c) {
        seq![c]
    } else if c == ' ' {
        seq!['+']
    } else {
        seq!['%', hex_upper((c as int) / 16), hex_upper((c as int) % 16)]
    }
}

/// The form-urlencoded serialization of ASCII text.
pub open spec fn form_encoded(s: Seq<char>) -> Seq<char>
    decreases s.len(),
{
    if s.len() == 0 {
        Seq::<char>::empty()
    } else {
        form_encoded_char(s[0]) + form_encoded(s.subrange(1, s.len() as int))
    }
}

/// Form-urlencodes ASCII text, as a query-pair serializer does.
pub fn form_urlencode(s: &str) -> (r: String)
    requires
        s.is_ascii(),
    ensures
        r@ == form_encoded(s@),
{
    let len = s.unicode_len();
    let mut out = String::new();
    let mut i: usize = 0;
    proof {
        assert(s@.subrange(0, len as int) =~= s@);
        assert(Seq::<char>::empty() + form_encoded(s@) =~= form_encoded(s@));
    }
    while i < len
        invariant
            s.is_ascii(),
            len == s@.len(),
            i <= len,
            out@ + form_encoded(s@.subrange(i as int, len as int)) == form_encoded(s@),
        decreases len - i,
    {
        let c = s.get_char(i);
        let ghost pre = out@;
        if ('0' <= c && c <= '9') || ('A' <= c && c <= 'Z') || ('a' <= c && c <= 'z') || c == '*'
            || c == '-' || c == '.' || c == '_' {
            out.append(s.substring_char(i, i + 1));
            proof {
                assert(s@.subrange(i as int, i + 1) =~= form_encoded_char(c));
            }
        } else if c == ' ' {
            out.append("+");
            proof {
                reveal_strlit("+");
                assert("+"@ =~= form_encoded_char(c));
            }
        } else {
            proof {
                reveal_strlit("0123456789ABCDEF");
            }
            let cv = c as u32;
            assert(cv < 128);
            let hex = "0123456789ABCDEF";
            let hi = (cv / 16) as usize;
            let lo = (cv % 16) as usize;
            out.append("%");
            out.append(hex.substring_char(hi, hi + 1));
            out.append(hex.substring_char(lo, lo + 1));
            proof {
                reveal_strlit("%");
                assert("%"@ + hex@.subrange(hi as int, hi + 1) + hex@.subrange(
                    lo as int,
                    lo + 1,
                ) =~= form_encoded_char(c));
            }
        }
        proof {
            let tail = s@.subrange(i as int, len as int);
            let rest = s@.subrange(i + 1, len as int);
            assert(tail.subrange(1, tail.len() as int) =~= rest);
            assert(form_encoded(tail) == form_encoded_char(c) + form_encoded(rest));
            assert((pre + form_encoded_char(c)) + form_encoded(rest) =~= pre + (form_encoded_char(c)
                + form_encoded(rest)));
        }
        i += 1;
    }
    proof {
        assert(s@.subrange(len as int, len as int) =~= Seq::<char>::empty());
        assert(out@ + Seq::<char>::empty() =~= out@);
    }
    out
}

/// The 6-bit value of a base64url alphabet character, `None` outside the
/// alphabet.
pub open spec fn b64_char_val(c: char) -> Option<int> {
    if 'A' <= c && c <= 'Z' {
        Some((c as int) - 65)
    } else if 'a' <= c && c <= 'z' {
        Some((c as int) - 97 + 26)
    } else if '0' <= c && c <= '9' {
        Some((c as int) - 48 + 52)
    } else if c == '-' {
        Some(62)
    } else if c == '_' {
        Some(63)
    } else {
        None
    }
}

/// Unpadded base64url decoding, strict: every character must be of the
/// alphabet, a single trailing character cannot occur, and the unused
/// bits of a final partial group must be zero.
pub open spec fn b64_decoded(s: Seq<char>) -> Option<Seq<u8>>
    decreases s.len(),
{
    if s.len() == 0 {
        Some(Seq::<u8>::empty())
    } else if s.len() == 1 {
        None
    } else if s.len() == 2 {
        match (b64_char_val(s[0]), b64_char_val(s[1])) {
            (Some(a), Some(b)) => if b % 16 == 0 {
                Some(seq![(a * 4 + b / 16) as u8])
            } else {
                None
            },
            _ => None,
        }
    } else if s.len() == 3 {
        match (b64_char_val(s[0]), b64_char_val(s[1]), b64_char_val(s[2])) {
            (Some(a), Some(b), Some(c)) => if c % 4 == 0 {
                Some(seq![(a * 4 + b / 16) as u8, ((b % 16) * 16 + c / 4) as u8])
            } else {
                None
            },
            _ => None,
        }
    } else {
        match (b64_char_val(s[0]), b64_char_val(s[1]), b64_char_val(s[2]), b64_char_val(s[3])) {
            (Some(a), Some(b), Some(c), Some(d)) => {
                match b64_decoded(s.subrange(4, s.len() as int)) {
                    Some(rest) => Some(
                        seq![
                            (a * 4 + b / 16) as u8,
                            ((b % 16) * 16 + c / 4) as u8,
                            ((c % 4) * 64 + d) as u8,
                        ] + rest,
                    ),
                    None => None,
                }
            },
            _ => None,
        }
    }
}

/// The 6-bit value of one base64url character.
fn b64_val(c: char) -> (r: Option<u8>)
    ensures
        match r {
            Some(v) => b64_char_val(c) == Some(v as int) && v < 64,
            None => b64_char_val(c) is None,
        },
{
    if 'A' <= c && c <= 'Z' {
        Some(((c as u32) - 65) as u8)
    } else if 'a' <= c && c <= 'z' {
        Some(((c as u32) - 97 + 26) as u8)
    } else if '0' <= c && c <= '9' {
        Some(((c as u32) - 48 + 52) as u8)
    } else if c == '-' {
        Some(62)
    } else if c == '_' {
        Some(63)
    } else {
        None
    }
}

/// Decodes unpadded base64url text, per [`b64_decoded`].
pub fn b64url_decode(s: &str) -> (r: Option<Vec<u8>>)
    ensures
        match r {
            Some(v) => b64_decoded(s@) == Some(v@),
            None => b64_decoded(s@) is None,
        },
{
    let len = s.unicode_len();
    let mut out: Vec<u8> = Vec::new();
    let mut i: usize = 0;
    proof {
        assert(s@.subrange(0, len as int) =~= s@);
        if b64_decoded(s@) is Some {
            assert(Seq::<u8>::empty() + b64_decoded(s@).unwrap() =~= b64_decoded(s@).unwrap());
        }
    }
    while len - i >= 4
        invariant
            len == s@.len(),
            i <= len,
            i % 4 == 0,
            match b64_decoded(s@.subrange(i as int, len as int)) {
                Some(rest) => b64_decoded(s@) == Some(out@ + rest),
                None => b64_decoded(s@) is None,
            },
        decreases len - i,
    {
        let a = b64_val(s.get_char(i));
        let b = b64_val(s.get_char(i + 1));
        let c = b64_val(s.get_char(i + 2));
        let d = b64_val(s.get_char(i + 3));
        let ghost tail = s@.subrange(i as int, len as int);
        proof {
            assert(tail.len() >= 4);
            assert(tail[0] == s@[i as int]);
            assert(tail[1] == s@[i + 1]);
            assert(tail[2] == s@[i + 2]);
            assert(tail[3] == s@[i + 3]);
            assert(tail.subrange(4, tail.len() as int) =~= s@.subrange(i + 4, len as int));
        }
        match (a, b, c, d) {
            (Some(a), Some(b), Some(c), Some(d)) => {
                let ghost pre = out@;
                out.push((a * 4 + b / 16) as u8);
                out.push(((b % 16) * 16 + c / 4) as u8);
                out.push(((c % 4) * 64 + d) as u8);
                proof {
                    let quad = seq![
                        ((a as int) * 4 + (b as int) / 16) as u8,
                        (((b as int) % 16) * 16 + (c as int) / 4) as u8,
                        (((c as int) % 4) * 64 + (d as int)) as u8,
                    ];
                    assert(out@ =~= pre + quad);
                    match b64_decoded(s@.subrange(i + 4, len as int)) {
                        Some(rest) => {
                            assert(b64_decoded(tail) == Some(quad + rest));
                            assert(pre + (quad + rest) =~= out@ + rest);
                        },
                        None => {},
                    }
                }
            },
            _ => {
                return None;
            },
        }
        i += 4;
    }
    // 0, 2 or 3 characters are left; 1 cannot be decoded.
    let ghost tail = s@.subrange(i as int, len as int);
    proof {
        assert forall|j: int| 0 <= j < tail.len() implies tail[j] == s@[i + j] by {}
    }
    if i == len {
        proof {
            assert(tail.len() == 0);
            assert(out@ + Seq::<u8>::empty() =~= out@);
        }
        return Some(out);
    }
    if len - i == 1 {
        return None;
    }
    let a = match b64_val(s.get_char(i)) {
        Some(v) => v,
        None => {
            return None;
        },
    };
    let b = match b64_val(s.get_char(i + 1)) {
        Some(v) => v,
        None => {
            return None;
        },
    };
    if len - i == 2 {
        if b % 16 != 0 {
            return None;
        }
        let ghost pre = out@;
        out.push((a * 4 + b / 16) as u8);
        proof {
            assert(b64_decoded(tail) == Some(seq![((a as int) * 4 + (b as int) / 16) as u8]));
            assert(pre + seq![((a as int) * 4 + (b as int) / 16) as u8] =~= out@);
        }
        return Some(out);
    }
    let c = match b64_val(s.get_char(i + 2)) {
        Some(v) => v,
        None => {
            return None;
        },
    };
    if c % 4 != 0 {
        return None;
    }
    let ghost pre = out@;
    out.push((a * 4 + b / 16) as u8);
    out.push(((b % 16) * 16 + c / 4) as u8);
    proof {
        assert(b64_decoded(tail) == Some(
            seq![
                ((a as int) * 4 + (b as int) / 16) as u8,
                (((b as int) % 16) * 16 + (c as int) / 4) as u8,
            ],
        ));
        assert(pre + seq![
            ((a as int) * 4 + (b as int) / 16) as u8,
            (((b as int) % 16) * 16 + (c as int) / 4) as u8,
        ] =~= out@);
    }
    Some(out)
}

} // verus!
