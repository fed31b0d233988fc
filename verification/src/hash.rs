use vstd::prelude::*;

verus! {

pub const FNV_OFFSET: u64 = 0xcbf29ce484222325;

pub const FNV_PRIME: u64 = 0x100000001b3;

/// One step of the hash: the byte is mixed in, then the state is multiplied.
pub open spec fn mix(state: u64, byte: u8) -> u64 {
    (state ^ (byte as u64)).wrapping_mul(FNV_PRIME)
}

/// The state after all bytes were mixed in, first to last.
pub open spec fn absorb(state: u64, bytes: Seq<u8>) -> u64
    decreases bytes.len(),
{
    if bytes.len() == 0 {
        state
    } else {
        mix(absorb(state, bytes.drop_last()), bytes.last())
    }
}

/// Absorbing two pieces in turn is absorbing them as one.
pub proof fn lemma_absorb_concat(state: u64, a: Seq<u8>, b: Seq<u8>)
    ensures
        absorb(absorb(state, a), b) == absorb(state, a + b),
    decreases b.len(),
{
    if b.len() == 0 {
        assert(a + b == a);
    } else {
        lemma_absorb_concat(state, a, b.drop_last());
        assert((a + b).drop_last() == a + b.drop_last());
        assert((a + b).last() == b.last());
    }
}

/// The hexadecimal digit of a value below sixteen.
pub open spec fn hex_digit(nibble: u64) -> char {
    if nibble == 0 {
        '0'
    } else if nibble == 1 {
        '1'
    } else if nibble == 2 {
        '2'
    } else if nibble == 3 {
        '3'
    } else if nibble == 4 {
        '4'
    } else if nibble == 5 {
        '5'
    } else if nibble == 6 {
        '6'
    } else if nibble == 7 {
        '7'
    } else if nibble == 8 {
        '8'
    } else if nibble == 9 {
        '9'
    } else if nibble == 10 {
        'a'
    } else if nibble == 11 {
        'b'
    } else if nibble == 12 {
        'c'
    } else if nibble == 13 {
        'd'
    } else if nibble == 14 {
        'e'
    } else {
        'f'
    }
}

/// The sixteen hexadecimal digits of a state, most significant first.
pub open spec fn digest_of(state: u64) -> Seq<char> {
    Seq::new(16, |i: int| hex_digit((state >> ((60 - 4 * i) as u64)) & 0xf))
}

fn hex_text(nibble: u64) -> (s: &'static str)
    requires
        nibble < 16,
    ensures
        s@ == seq![hex_digit(nibble)],
{
    proof {
        reveal_strlit("0");
        reveal_strlit("1");
        reveal_strlit("2");
        reveal_strlit("3");
        reveal_strlit("4");
        reveal_strlit("5");
        reveal_strlit("6");
        reveal_strlit("7");
        reveal_strlit("8");
        reveal_strlit("9");
        reveal_strlit("a");
        reveal_strlit("b");
        reveal_strlit("c");
        reveal_strlit("d");
        reveal_strlit("e");
        reveal_strlit("f");
    }
    let s = if nibble == 0 {
        "0"
    } else if nibble == 1 {
        "1"
    } else if nibble == 2 {
        "2"
    } else if nibble == 3 {
        "3"
    } else if nibble == 4 {
        "4"
    } else if nibble == 5 {
        "5"
    } else if nibble == 6 {
        "6"
    } else if nibble == 7 {
        "7"
    } else if nibble == 8 {
        "8"
    } else if nibble == 9 {
        "9"
    } else if nibble == 10 {
        "a"
    } else if nibble == 11 {
        "b"
    } else if nibble == 12 {
        "c"
    } else if nibble == 13 {
        "d"
    } else if nibble == 14 {
        "e"
    } else {
        "f"
    };
    assert(s@ =~= seq![hex_digit(nibble)]);
    s
}

/// A running content hash.
#[derive(Clone, Copy, Debug, PartialEq, Eq, Structural)]
pub struct ContentHasher {
    pub state: u64,
}

impl ContentHasher {
    /// A hasher that has seen nothing yet.
    pub fn new() -> (h: Self)
        ensures
            h.state == FNV_OFFSET,
    {
        ContentHasher { state: FNV_OFFSET }
    }

    /// A hasher that has seen the salt of the output options, if there is one.
    pub fn with_salt(salt: &Option<String>) -> (h: Self)
        ensures
            h.state == match *salt {
                Some(s) => absorb(FNV_OFFSET, vstd::utf8::encode_utf8(s@)),
                None => FNV_OFFSET,
            },
    {
        let mut h = ContentHasher::new();
        match salt {
            Some(s) => {
                h.write_str(s.as_str());
            },
            None => {},
        }
        h
    }

    /// Mixes the bytes in, first to last.
    pub fn write(&mut self, bytes: &[u8])
        ensures
            final(self).state == absorb(old(self).state, bytes@),
    {
        let mut i: usize = 0;
        while i < bytes.len()
            invariant
                0 <= i <= bytes.len(),
                self.state == absorb(old(self).state, bytes@.take(i as int)),
            decreases bytes.len() - i,
        {
            let b = bytes[i];
            self.state = (self.state ^ (b as u64)).wrapping_mul(FNV_PRIME);
            i = i + 1;
            proof {
                let now = bytes@.take(i as int);
                assert(now.drop_last() == bytes@.take(i - 1));
                assert(now.last() == b);
            }
        }
        proof {
            assert(bytes@.take(i as int) == bytes@);
        }
    }

    /// Mixes the UTF-8 bytes of a text in.
    pub fn write_str(&mut self, text: &str)
        ensures
            final(self).state == absorb(old(self).state, vstd::utf8::encode_utf8(text@)),
    {
        self.write(text.as_bytes());
    }

    /// The digest of all that was written: sixteen hexadecimal digits.
    pub fn digest(&self) -> (d: String)
        ensures
            d@ == digest_of(self.state),
            d@.len() == 16,
    {
        let mut out = String::new();
        let mut i: u64 = 0;
        while i < 16
            invariant
                0 <= i <= 16,
                out@ == digest_of(self.state).take(i as int),
            decreases 16 - i,
        {
            let shift: u64 = 60 - 4 * i;
            let state: u64 = self.state;
            let nibble: u64 = (state >> shift) & 0xf;
            assert(nibble < 16) by (bit_vector)
                requires
                    nibble == (state >> shift) & 0xf,
            ;
            let ghost before = out@;
            out.append(hex_text(nibble));
            i = i + 1;
            proof {
                let all = digest_of(self.state);
                assert(out@ == before + seq![hex_digit(nibble)]);
                assert(all.take(i as int) == all.take(i - 1).push(all[i - 1]));
            }
        }
        proof {
            assert(digest_of(self.state).take(16) == digest_of(self.state));
        }
        out
    }
}

} // verus!
