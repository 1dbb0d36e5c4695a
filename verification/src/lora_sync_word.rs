//! The synchronization word that tells LoRa networks apart.
use vstd::prelude::*;

verus! {

/// LoRa synchronization word.
#[derive(Debug, PartialEq, Eq, Structural, Clone, Copy)]
pub enum LoRaSyncWord {
    /// LoRa private network.
    Private,
    /// LoRa public network.
    Public,
}

impl LoRaSyncWord {
    /// The two bytes of the synchronization word, in the order of
    /// transmission.
    pub open spec fn word(self) -> Seq<u8> {
        match self {
            LoRaSyncWord::Private => seq![0x14u8, 0x24u8],
            LoRaSyncWord::Public => seq![0x34u8, 0x44u8],
        }
    }

    /// Returns the two bytes of the synchronization word, in the order of
    /// transmission.
    pub fn bytes(self) -> (r: [u8; 2])
        ensures
            r@ == self.word(),
    {
        let r: [u8; 2] = match self {
            LoRaSyncWord::Private => [0x14, 0x24],
            LoRaSyncWord::Public => [0x34, 0x44],
        };
        assert(r@ =~= self.word());
        r
    }
}

} // verus!
