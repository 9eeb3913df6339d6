//! The canonical room name.
//!
//! A room's name is a deterministic function of the owning user's display
//! name: lower-case it, strip everything that is not an ASCII letter or
//! digit, and prefix `room-`. Names are handled as byte strings: the
//! lowering touches only ASCII letters and the stripping keeps only ASCII
//! alphanumerics, so working on the UTF-8 bytes of the display name gives
//! the same result as working on its characters.

use vstd::prelude::*;

verus! {

/// An ASCII digit, upper-case letter or lower-case letter.
pub open spec fn is_name_byte(b: u8) -> bool {
    (0x30 <= b && b <= 0x39) || (0x41 <= b && b <= 0x5a) || (0x61 <= b && b <= 0x7a)
}

/// ASCII lower-casing of one byte; bytes outside `A..=Z` are unchanged.
pub open spec fn ascii_lower(b: u8) -> u8 {
    if 0x41 <= b && b <= 0x5a {
        (b + 0x20) as u8
    } else {
        b
    }
}

/// The bytes of `"room-"`.
pub open spec fn room_name_prefix() -> Seq<u8> {
    seq![0x72u8, 0x6fu8, 0x6fu8, 0x6du8, 0x2du8]
}

/// The canonical room name for a user with the given display name:
/// `"room-"` followed by the lower-cased ASCII alphanumerics of the name.
pub open spec fn canonical_name(username: Seq<u8>) -> Seq<u8> {
    room_name_prefix() + username.map_values(|b: u8| ascii_lower(b)).filter(
        |b: u8| is_name_byte(b),
    )
}

/// Generates the canonical voice-channel name for a given display name.
pub fn generate_room_name(username: &Vec<u8>) -> (r: Vec<u8>)
    ensures
        r@ == canonical_name(username@),
{
    let mut out: Vec<u8> = Vec::new();
    out.push(0x72);
    out.push(0x6f);
    out.push(0x6f);
    out.push(0x6d);
    out.push(0x2d);
    proof {
        assert(out@ =~= room_name_prefix());
        assert(username@.take(0).map_values(|b: u8| ascii_lower(b)) =~= Seq::<u8>::empty());
        reveal(Seq::filter);
        assert(out@ =~= canonical_name(username@.take(0)));
    }
    let n = username.len();
    for i in 0..n
        invariant
            n == username.len(),
            out@ == canonical_name(username@.take(i as int)),
    {
        let b = username[i];
        let lowered: u8 = if 0x41 <= b && b <= 0x5a {
            b + 0x20
        } else {
            b
        };
        let keep = (0x30 <= lowered && lowered <= 0x39) || (0x41 <= lowered && lowered <= 0x5a)
            || (0x61 <= lowered && lowered <= 0x7a);
        proof {
            let prev = username@.take(i as int).map_values(|x: u8| ascii_lower(x));
            let cur = username@.take(i + 1).map_values(|x: u8| ascii_lower(x));
            assert(cur =~= prev.push(ascii_lower(b)));
            assert(cur.drop_last() =~= prev);
            reveal(Seq::filter);
            assert(cur.filter(|x: u8| is_name_byte(x)) == prev.filter(|x: u8| is_name_byte(x))
                + (if is_name_byte(ascii_lower(b)) {
                seq![ascii_lower(b)]
            } else {
                Seq::<u8>::empty()
            }));
        }
        if keep {
            out.push(lowered);
            proof {
                assert(out@ =~= canonical_name(username@.take(i + 1)));
            }
        } else {
            proof {
                assert(out@ =~= canonical_name(username@.take(i + 1)));
            }
        }
    }
    proof {
        assert(username@.take(n as int) =~= username@);
    }
    out
}

/// Compares two byte strings.
pub fn bytes_eq(a: &Vec<u8>, b: &Vec<u8>) -> (r: bool)
    ensures
        r <==> a@ == b@,
{
    if a.len() != b.len() {
        proof {
            assert(a@.len() != b@.len());
        }
        return false;
    }
    let n = a.len();
    for i in 0..n
        invariant
            n == a.len(),
            n == b.len(),
            forall|j: int| 0 <= j < i ==> a@[j] == b@[j],
    {
        if a[i] != b[i] {
            return false;
        }
    }
    proof {
        assert(a@ =~= b@);
    }
    true
}

} // verus!
