//! The kinds of network that the engine dials and listens on.

use crate::text::CText;
use vstd::prelude::*;
use vstd::utf8::encode_utf8;

verus! {

/// The possible network types.
#[derive(Debug)]
pub enum Network {
    /// TCP
    Tcp,
    /// UDP
    Udp,
}

impl Network {
    /// The lower-case name by which the engine knows the network.
    pub open spec fn token(self) -> Seq<char> {
        match self {
            Network::Tcp => seq!['t', 'c', 'p'],
            Network::Udp => seq!['u', 'd', 'p'],
        }
    }

    /// The bytes of [`Network::token`].
    pub open spec fn token_bytes(self) -> Seq<u8> {
        match self {
            Network::Tcp => seq![0x74u8, 0x63u8, 0x70u8],
            Network::Udp => seq![0x75u8, 0x64u8, 0x70u8],
        }
    }

    /// The token as text: `tcp` or `udp`.
    pub fn to_string(&self) -> (text: String)
        ensures
            text@ == self.token(),
    {
        match self {
            Network::Tcp => {
                proof {
                    reveal_strlit("tcp");
                }
                assert("tcp"@ =~= Network::Tcp.token());
                "tcp".to_owned()
            },
            Network::Udp => {
                proof {
                    reveal_strlit("udp");
                }
                assert("udp"@ =~= Network::Udp.token());
                "udp".to_owned()
            },
        }
    }

    /// The token as the engine takes it.
    pub fn c_token(&self) -> (text: CText)
        ensures
            text@ == self.token_bytes(),
    {
        let mut bytes: Vec<u8> = Vec::new();
        match self {
            Network::Tcp => {
                bytes.push(0x74u8);
                bytes.push(0x63u8);
                bytes.push(0x70u8);
            },
            Network::Udp => {
                bytes.push(0x75u8);
                bytes.push(0x64u8);
                bytes.push(0x70u8);
            },
        }
        assert(bytes@ =~= self.token_bytes());
        CText::new(bytes).unwrap()
    }
}

/// The bytes of a network's token are the UTF-8 encoding of its text.
pub proof fn token_bytes_encode_token(network: Network)
    ensures
        network.token_bytes() == encode_utf8(network.token()),
{
    vstd::utf8::is_ascii_chars_encode_utf8(network.token());
    assert(network.token_bytes() =~= encode_utf8(network.token()));
}

} // verus!
